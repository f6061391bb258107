//! The sync pair: a lock and a condition coupled so that an owning producer
//! can wake attached consumers that block without busy-polling.
//!
//! The pair derives two sub-names from a shared base name — `{base}_mutex`
//! and `{base}_condvar` — and backs each primitive with its own region, so
//! that independent consumer processes can find the very same lock and
//! generation word the producer uses: the lock itself must live in shared
//! memory, since consumers cannot share the producer's in-process lock.
//!
//! Owner-role methods take the pair exclusively (`create`, `notify_all`);
//! the attached-role wait needs the lock for the observation of the
//! generation word and otherwise leaves the pair as it found it.

use vstd::prelude::*;

use vstd::string::StringExecFns;

use crate::pthread::{ShmCondition, ShmMutex, WaitOutcome};
use crate::ShmDefinition;

verus! {

/// Byte size of the region backing each primitive of a pair: a one-word
/// futex lock and a one-word generation counter.
pub const SYNC_REGION_BYTES: usize = 4;

/// A process-shared lock/condition pair rooted at a base name.
pub struct ShmSync {
    pub mutex: ShmMutex,
    pub condition: ShmCondition,
}

impl ShmSync {
    /// Owner role: derives the two sub-names, creates a region for each
    /// primitive, and initializes the pair in place — the mutex unlocked,
    /// the condition at its starting generation.
    pub fn create(name: String) -> (s: ShmSync)
        ensures
            s.mutex.definition.name@ == name@ + "_mutex"@,
            s.mutex.definition.size == SYNC_REGION_BYTES,
            !s.mutex.locked,
            s.condition.definition.name@ == name@ + "_condvar"@,
            s.condition.definition.size == SYNC_REGION_BYTES,
            s.condition.value == 1,
    {
        let mutex_name = String::from_str(name.as_str()).concat("_mutex");
        let condvar_name = name.concat("_condvar");
        let mutex = ShmMutex::init_in_shm(ShmDefinition::new(mutex_name, SYNC_REGION_BYTES));
        let condition = ShmCondition::init_in_shm(
            ShmDefinition::new(condvar_name, SYNC_REGION_BYTES),
        );
        ShmSync { mutex, condition }
    }

    /// Owner role: wakes all attached waiters by bumping the generation
    /// word, wrapping on overflow.
    pub fn notify_all(&mut self)
        ensures
            final(self).mutex == old(self).mutex,
            final(self).condition.definition == old(self).condition.definition,
            final(self).condition.value == (if old(self).condition.value == u32::MAX {
                0u32
            } else {
                (old(self).condition.value + 1) as u32
            }),
    {
        self.condition.notify_all();
    }

    /// Attached role: reads the current generation under the pair's lock —
    /// the moment a bounded wait begins.
    pub fn observe(&mut self) -> (v: u32)
        requires
            !old(self).mutex.locked,
        ensures
            *final(self) == *old(self),
            v == old(self).condition.value,
    {
        self.mutex.lock();
        let v = self.condition.observe();
        self.mutex.unlock();
        v
    }

    /// Attached role: ends a bounded wait begun at generation `expected` —
    /// notified if the word moved in the meantime, timed out otherwise.
    pub fn finish_wait(&self, expected: u32) -> (o: WaitOutcome)
        ensures
            o == (if self.condition.value != expected {
                WaitOutcome::Notified
            } else {
                WaitOutcome::TimedOut
            }),
    {
        self.condition.finish_wait(expected)
    }

    /// Attached role: one whole bounded wait. Within a single borrow of the
    /// pair no notification can intervene between the observation and the
    /// end of the block, so the bound elapses; a notification arriving
    /// mid-wait is modeled by `observe`, `notify_all`, `finish_wait`.
    pub fn wait(&mut self) -> (o: WaitOutcome)
        requires
            !old(self).mutex.locked,
        ensures
            *final(self) == *old(self),
            o == WaitOutcome::TimedOut,
    {
        let expected = self.observe();
        self.finish_wait(expected)
    }
}

} // verus!
