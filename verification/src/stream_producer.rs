//! Event stream, producer side: a generic append-only, sequence-numbered
//! log of fixed-size plain records, with wakeups for blocked consumers.
//!
//! The producer owns the region — the sequence counter followed by
//! capacity-many element slots — and the sync pair rooted at the stream's
//! name. `insert` writes the event into the next slot, advances the
//! sequence counter, and notifies all waiters; once the fixed slot count is
//! exhausted it fails with `OutOfCapacity` — the stream does not wrap or
//! recycle slots.

use vstd::prelude::*;

use vstd::layout::size_of;

use vstd::string::StringExecFns;

use core::marker::PhantomData;

use crate::shm::{region_capacity, spec_capacity, MutableShmMap};
use crate::shm_syncer::ShmSync;
use crate::{ShmDefinition, ShmError};

verus! {

/// The region contents after inserting the events of `events`, one at a
/// time and in order, into a stream whose region held `init`: each insert
/// appends exactly one element.
pub open spec fn slots_after_inserts<E>(init: Seq<E>, events: Seq<E>) -> Seq<E>
    decreases events.len(),
{
    if events.len() == 0 {
        init
    } else {
        slots_after_inserts(init.push(events[0]), events.skip(1))
    }
}

/// Inserting a sequence of events appends exactly those events, in
/// insertion order: nothing is reordered, dropped or duplicated.
pub proof fn lemma_inserts_append<E>(init: Seq<E>, events: Seq<E>)
    ensures
        slots_after_inserts(init, events) == init + events,
    decreases events.len(),
{
    if events.len() == 0 {
        assert(slots_after_inserts(init, events) =~= init + events);
    } else {
        lemma_inserts_append(init.push(events[0]), events.skip(1));
        assert(init.push(events[0]) + events.skip(1) =~= init + events);
    }
}

/// A fresh stream with capacity for a whole sequence of events accepts
/// every one of them: before each insert the producer's remaining budget —
/// the capacity minus the committed count — is positive, so by `insert`'s
/// contract the insert succeeds and appends; after all of them the region
/// holds exactly the inserted events, in insertion order, with no gap and
/// no duplicate.
pub proof fn lemma_stream_accepts_all<E>(events: Seq<E>, committed: int, capacity: int)
    requires
        0 <= committed < events.len() <= capacity,
    ensures
        capacity - committed > 0,
        slots_after_inserts(Seq::<E>::empty(), events) == events,
{
    lemma_inserts_append(Seq::<E>::empty(), events);
    assert(slots_after_inserts(Seq::<E>::empty(), events) =~= events);
}

/// Producer (owner) end of an event stream.
pub struct ShmStream<E> {
    /// Elements that may still be inserted before the stream is full.
    pub available: usize,
    pub event_type: PhantomData<E>,
}

impl<E: Copy> ShmStream<E> {
    /// Ties the producer to its region: the region is well formed and the
    /// remaining budget plus the sequence counter equals the fixed capacity
    /// computed at open time.
    pub open spec fn wf(&self, shm: MutableShmMap<E>) -> bool {
        &&& shm.wf()
        &&& self.available + shm.counter == spec_capacity(
            shm.definition.size as int,
            size_of::<E>() as int,
        )
        &&& spec_capacity(shm.definition.size as int, size_of::<E>() as int) <= usize::MAX
    }

    /// Creates a sync pair rooted at the stream's name plus a region sized
    /// to hold the sequence counter followed by capacity-many elements, and
    /// zeroes the counter. The region and the pair are the shared media
    /// that attached consumers will observe.
    pub fn open(definition: ShmDefinition) -> (r: (ShmStream<E>, MutableShmMap<E>, ShmSync))
        ensures
            r.0.wf(r.1),
            r.1.definition == definition,
            r.1.counter == 0,
            r.1.slots@ == Seq::<E>::empty(),
            r.0.available == spec_capacity(definition.size as int, size_of::<E>() as int),
            r.2.mutex.definition.name@ == definition.name@ + "_mutex"@,
            !r.2.mutex.locked,
            r.2.condition.definition.name@ == definition.name@ + "_condvar"@,
            r.2.condition.value == 1,
    {
        let name_copy = String::from_str(definition.name.as_str());
        let syncer = ShmSync::create(name_copy);
        let size = definition.size;
        let m = MutableShmMap::create(definition);
        let elem = core::mem::size_of::<E>();
        let available = region_capacity(size, elem);
        (ShmStream { available, event_type: PhantomData }, m, syncer)
    }

    /// With capacity remaining, writes the event into the next slot,
    /// advances the sequence counter by one, and wakes all blocked
    /// consumers; with none, fails with `OutOfCapacity` and nothing at all
    /// is written — no partial write, no notification.
    pub fn insert(&mut self, shm: &mut MutableShmMap<E>, sync: &mut ShmSync, event: E) -> (r:
        Result<(), ShmError>)
        requires
            old(self).wf(*old(shm)),
        ensures
            final(self).wf(*final(shm)),
            final(shm).definition == old(shm).definition,
            if old(self).available > 0 {
                &&& r is Ok
                &&& final(shm).slots@ == old(shm).slots@.push(event)
                &&& final(shm).counter == old(shm).counter + 1
                &&& final(self).available == old(self).available - 1
                &&& final(sync).mutex == old(sync).mutex
                &&& final(sync).condition.definition == old(sync).condition.definition
                &&& final(sync).condition.value == (if old(sync).condition.value == u32::MAX {
                    0u32
                } else {
                    (old(sync).condition.value + 1) as u32
                })
            } else {
                &&& r == Err::<(), ShmError>(ShmError::OutOfCapacity)
                &&& *final(shm) == *old(shm)
                &&& *final(self) == *old(self)
                &&& *final(sync) == *old(sync)
            },
    {
        if self.available > 0 {
            shm.commit(event);
            sync.notify_all();
            self.available = self.available - 1;
            Ok(())
        } else {
            Err(ShmError::OutOfCapacity)
        }
    }
}

} // verus!
