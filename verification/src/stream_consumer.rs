//! Event stream, consumer side: an attached, read-only view of a
//! sequence-numbered log, with blocking consumption via the stream's sync
//! pair.
//!
//! Each consumer tracks a private `next_sequence`, starting at one. `next`
//! reads the current sequence counter; while the counter has not reached
//! `next_sequence` the consumer blocks on the pair's bounded wait and then
//! re-checks — "no element" is only a transient answer, after a timeout,
//! and the caller is expected to retry. Once the counter covers the cursor,
//! the element at the consumer's private position is read and both the
//! cursor and `next_sequence` advance. Consumers never write the shared
//! region, so any number of them can follow the same stream independently.

use vstd::prelude::*;

use vstd::layout::size_of;

use core::marker::PhantomData;

use crate::shm::{lemma_capacity_le_size, spec_capacity, MutableShmMap, ShmMap};
use crate::shm_syncer::ShmSync;
use crate::stream_producer::{lemma_inserts_append, slots_after_inserts};
use crate::ShmDefinition;

verus! {

/// The sequence of elements a consumer obtains from its first `n`
/// successful calls of `next` on a stream whose region holds `slots`: the
/// private cursor visits slots `0, 1, ..., n - 1`, in that order.
pub open spec fn observed_prefix<E>(slots: Seq<E>, n: int) -> Seq<E>
    decreases n,
{
    if n <= 0 {
        Seq::empty()
    } else {
        observed_prefix(slots, n - 1).push(slots[n - 1])
    }
}

/// A consumer reads the committed prefix of the stream as it stands, in
/// order and without gaps or duplicates.
pub proof fn lemma_observed_prefix_subrange<E>(slots: Seq<E>, n: int)
    requires
        0 <= n <= slots.len(),
    ensures
        observed_prefix(slots, n) == slots.subrange(0, n),
    decreases n,
{
    if n > 0 {
        lemma_observed_prefix_subrange(slots, n - 1);
        assert(slots.subrange(0, n - 1).push(slots[n - 1]) =~= slots.subrange(0, n));
    } else {
        assert(observed_prefix(slots, 0) =~= slots.subrange(0, 0));
    }
}

/// For events inserted in order into a stream that held nothing, any
/// consumer that performs `n` successful reads from the start obtains
/// exactly the first `n` of those events, in insertion order, with no gap
/// and no duplicate. The observed prefix depends only on the shared region
/// and the number of reads — not on which consumer reads — so any two
/// attached consumers observe the same sequence, each by its own private
/// cursor.
pub proof fn lemma_consumers_see_inserts<E>(events: Seq<E>, n: int)
    requires
        0 <= n <= events.len(),
    ensures
        observed_prefix(slots_after_inserts(Seq::<E>::empty(), events), n) == events.subrange(
            0,
            n,
        ),
{
    lemma_inserts_append(Seq::<E>::empty(), events);
    assert(slots_after_inserts(Seq::<E>::empty(), events) =~= events);
    lemma_observed_prefix_subrange(events, n);
}

/// Consumer (attached) end of an event stream.
pub struct ShmStream<E> {
    /// The attachment to the shared region, recording name and size.
    pub map: ShmMap,
    /// The sequence number this consumer will return next; starts at one.
    pub next_sequence: u64,
    pub event_type: PhantomData<E>,
}

impl<E: Copy> ShmStream<E> {
    /// Ties the consumer to the region it attached to: same definition, a
    /// well-formed region within the capacity the producer fixed, and a
    /// cursor that never runs past the element after the committed count.
    pub open spec fn wf(&self, shm: MutableShmMap<E>) -> bool {
        &&& shm.wf()
        &&& shm.within_capacity(size_of::<E>() as int)
        &&& spec_capacity(shm.definition.size as int, size_of::<E>() as int) <= usize::MAX
        &&& crate::same_definition(self.map.definition, shm.definition)
        &&& 1 <= self.next_sequence
        &&& self.next_sequence - 1 <= shm.counter
    }

    /// Attaches to the stream's region and its sync pair; the private
    /// sequence cursor starts at one.
    pub fn open(definition: ShmDefinition) -> (r: ShmStream<E>)
        ensures
            r.map.definition == definition,
            r.next_sequence == 1,
    {
        ShmStream { map: ShmMap::open(definition), next_sequence: 1, event_type: PhantomData }
    }

    /// Returns the element at this consumer's position once the sequence
    /// counter has reached it, advancing the private cursor by one; until
    /// then, blocks on the pair's bounded wait, re-checks, and returns no
    /// element — a transient answer the caller retries. The result depends
    /// only on the shared region and this consumer's own cursor.
    pub fn next(&mut self, shm: &MutableShmMap<E>, sync: &mut ShmSync) -> (o: Option<E>)
        requires
            old(self).wf(*shm),
            !old(sync).mutex.locked,
        ensures
            final(self).wf(*shm),
            final(self).map == old(self).map,
            *final(sync) == *old(sync),
            if old(self).next_sequence <= shm.counter {
                &&& o == Some(shm.slots@[old(self).next_sequence - 1])
                &&& final(self).next_sequence == old(self).next_sequence + 1
            } else {
                &&& o is None
                &&& final(self).next_sequence == old(self).next_sequence
            },
    {
        proof {
            lemma_capacity_le_size(shm.definition.size as int, size_of::<E>() as int);
        }
        let current_sequence = shm.counter();
        if current_sequence < self.next_sequence {
            let _outcome = sync.wait();
        }
        if current_sequence >= self.next_sequence {
            let idx: usize = (self.next_sequence - 1) as usize;
            let record = shm.read_slot(idx);
            self.next_sequence = self.next_sequence + 1;
            Some(record)
        } else {
            None
        }
    }
}

} // verus!
