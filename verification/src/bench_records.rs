//! Records used by the load-generating drivers of the stream.

use vstd::prelude::*;

use crate::Record;

verus! {

/// A light record for load runs: the first component is the one-based
/// sequence number and also the key; the second a timestamp payload in
/// nanoseconds.
#[derive(Clone, Copy, Debug)]
pub struct LigthRecord {
    pub value: (usize, u128),
}

impl Record<usize> for LigthRecord {
    open spec fn spec_key(&self) -> usize {
        self.value.0
    }

    fn key(&self) -> (k: usize)
        ensures
            k == self.spec_key(),
    {
        self.value.0
    }
}

/// Builds the record for position `seq_num` of a load run: the key is the
/// one-based sequence number, the payload the timestamp the driver read
/// when it built the record.
pub fn build_light_record(seq_num: usize, stamp_nanos: u128) -> (r: LigthRecord)
    requires
        seq_num < usize::MAX,
    ensures
        r.value.0 == seq_num + 1,
        r.value.1 == stamp_nanos,
{
    LigthRecord { value: (seq_num + 1, stamp_nanos) }
}

} // verus!
