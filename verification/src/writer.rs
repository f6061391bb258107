//! Byte channel, writer side: a single-writer, append-only buffer of raw
//! bytes behind a committed-count header.
//!
//! The writer owns the region's lifecycle. `write` copies as many of the
//! offered bytes as still fit, appending at the write cursor and advancing
//! the committed count by exactly the number of bytes copied; once the fixed
//! capacity is spent, further writes copy nothing. Writes are committed
//! synchronously, so `flush` has nothing to do.

use vstd::prelude::*;

use crate::shm::{spec_capacity, region_capacity, MutableShmMap};
use crate::{ShmDefinition, ShmError};

verus! {

/// Writer (owner) end of a byte channel.
pub struct ShmWriter {
    /// Bytes that may still be written before the region is full.
    pub available: usize,
}

impl ShmWriter {
    /// Ties the writer to its region: the region is well formed and the
    /// remaining budget plus the committed count equals the fixed capacity
    /// computed at open time.
    pub open spec fn wf(self, shm: MutableShmMap<u8>) -> bool {
        &&& shm.wf()
        &&& self.available + shm.counter == spec_capacity(shm.definition.size as int, 1)
    }

    /// Creates the backing region for a byte channel and zeroes its header:
    /// no byte is committed yet, and the whole capacity is available. The
    /// writer and the region are returned together; the region value is the
    /// shared medium that attached readers will observe.
    pub fn open(definition: ShmDefinition) -> (r: (ShmWriter, MutableShmMap<u8>))
        ensures
            r.0.wf(r.1),
            r.1.definition == definition,
            r.1.counter == 0,
            r.1.slots@ == Seq::<u8>::empty(),
            r.0.available == spec_capacity(definition.size as int, 1),
    {
        let size = definition.size;
        let m = MutableShmMap::create(definition);
        let available = region_capacity(size, 1);
        (ShmWriter { available }, m)
    }

    /// Appends `min(available, value.len())` bytes of `value` to the channel
    /// and publishes them by advancing the committed count by that amount.
    /// Returns the number of bytes written; a full channel writes nothing
    /// and returns zero.
    pub fn write(&mut self, shm: &mut MutableShmMap<u8>, value: &[u8]) -> (n: usize)
        requires
            old(self).wf(*old(shm)),
        ensures
            final(self).wf(*final(shm)),
            final(shm).definition == old(shm).definition,
            n == vstd::math::min(old(self).available as int, value@.len() as int),
            final(shm).slots@ == old(shm).slots@ + value@.subrange(0, n as int),
            final(shm).counter == old(shm).counter + n,
            final(self).available == old(self).available - n,
    {
        let len = value.len();
        let writable: usize = if self.available < len {
            self.available
        } else {
            len
        };
        let mut i: usize = 0;
        while i < writable
            invariant
                i <= writable,
                writable == vstd::math::min(old(self).available as int, value@.len() as int),
                old(self).available + old(shm).counter == spec_capacity(
                    old(shm).definition.size as int,
                    1,
                ),
                shm.wf(),
                shm.definition == old(shm).definition,
                shm.counter == old(shm).counter + i,
                shm.slots@ == old(shm).slots@ + value@.subrange(0, i as int),
                self == old(self),
            decreases writable - i,
        {
            proof {
                assert(shm.counter < spec_capacity(old(shm).definition.size as int, 1));
            }
            let b = value[i];
            shm.commit(b);
            proof {
                assert(value@.subrange(0, i + 1) == value@.subrange(0, i as int).push(
                    value@[i as int],
                ));
            }
            i = i + 1;
        }
        self.available = self.available - writable;
        writable
    }

    /// Writes are committed synchronously as part of `write`, so there is
    /// nothing to flush; the call always succeeds and changes nothing.
    pub fn flush(&mut self) -> (r: Result<(), ShmError>)
        ensures
            *final(self) == *old(self),
            r is Ok,
    {
        Ok(())
    }
}

} // verus!
