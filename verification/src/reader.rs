//! Byte channel, reader side: an attached, read-only view of a byte region
//! with a private cursor.
//!
//! The reader opens an existing region and tracks how many bytes it has
//! consumed. `read` copies whatever the committed count has published beyond
//! that cursor — never more than the caller's buffer holds — and returns the
//! number of bytes copied; zero means nothing new is available, not an
//! error, and callers that need blocking behavior must poll.

use vstd::prelude::*;

use crate::shm::{lemma_capacity_le_size, MutableShmMap, ShmMap};
use crate::ShmDefinition;

verus! {

/// Reader (attached) end of a byte channel.
pub struct ShmReader {
    /// The attachment to the shared region, recording name and size.
    pub map: ShmMap,
    /// Number of bytes this reader has already consumed.
    pub read: usize,
}

impl ShmReader {
    /// Ties the reader to the region it attached to: same definition, a
    /// well-formed region that respects its byte capacity, and a cursor that
    /// never runs ahead of the committed count.
    pub open spec fn wf(self, shm: MutableShmMap<u8>) -> bool {
        &&& shm.wf()
        &&& shm.within_capacity(1)
        &&& crate::same_definition(self.map.definition, shm.definition)
        &&& self.read <= shm.counter
    }

    /// Attaches to the named byte region; the private cursor starts at the
    /// beginning of the channel.
    pub fn open(definition: ShmDefinition) -> (r: ShmReader)
        ensures
            r.map.definition == definition,
            r.read == 0,
    {
        ShmReader { map: ShmMap::open(definition), read: 0 }
    }

    /// Copies `min(out.len(), committed - read)` bytes into the front of
    /// `out`, starting at the reader's private cursor, and advances the
    /// cursor by that amount. The rest of `out` is untouched. Returns the
    /// number of bytes copied; zero when nothing new is available.
    pub fn read(&mut self, shm: &MutableShmMap<u8>, out: &mut Vec<u8>) -> (n: usize)
        requires
            old(self).wf(*shm),
        ensures
            final(self).wf(*shm),
            final(self).map == old(self).map,
            n == vstd::math::min(old(out)@.len() as int, shm.counter - old(self).read),
            final(self).read == old(self).read + n,
            final(out)@.len() == old(out)@.len(),
            final(out)@.subrange(0, n as int) == shm.slots@.subrange(
                old(self).read as int,
                old(self).read + n,
            ),
            final(out)@.subrange(n as int, final(out)@.len() as int) == old(out)@.subrange(
                n as int,
                old(out)@.len() as int,
            ),
    {
        proof {
            lemma_capacity_le_size(shm.definition.size as int, 1);
        }
        let avail64: u64 = shm.counter() - (self.read as u64);
        let buf_len = out.len();
        let readable: usize = if (buf_len as u64) < avail64 {
            buf_len
        } else {
            avail64 as usize
        };
        let start = self.read;
        let mut i: usize = 0;
        while i < readable
            invariant
                i <= readable,
                start == old(self).read,
                readable == vstd::math::min(old(out)@.len() as int, shm.counter - start),
                old(self).wf(*shm),
                start + readable <= shm.counter,
                out@.len() == old(out)@.len(),
                forall|j: int| 0 <= j < i ==> out@[j] == shm.slots@[start + j],
                forall|j: int| i <= j < out@.len() ==> out@[j] == old(out)@[j],
            decreases readable - i,
        {
            let idx: usize = start + i;
            let v = shm.read_slot(idx);
            out[i] = v;
            i = i + 1;
        }
        self.read = self.read + readable;
        proof {
            assert(out@.subrange(0, readable as int) =~= shm.slots@.subrange(
                start as int,
                start + readable,
            ));
            assert(out@.subrange(readable as int, out@.len() as int) =~= old(out)@.subrange(
                readable as int,
                old(out)@.len() as int,
            ));
        }
        readable
    }
}

} // verus!
