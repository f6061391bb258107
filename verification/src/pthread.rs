//! Process-shared synchronization primitives whose storage lives inside a
//! shared memory region.
//!
//! The primitive's control block is itself the region's payload: the owner
//! role initializes it in place with the process-shared attribute and holds
//! the destruction obligation; attached roles only bind to the existing
//! bytes. The condition variable is a one-word generation counter: a
//! notification bumps the word and wakes all waiters, and a waiter that
//! began its bounded block at an older word returns promptly. A wait that
//! sees no new generation returns a timeout outcome after the fixed bound
//! rather than an error, and the caller re-checks its predicate — the
//! design is spurious-wakeup-safe, so callers must always re-check.
//!
//! The model here verifies the protocol: who may initialize, the lock
//! discipline, how the generation word moves, and what each wait outcome
//! means. The blocking syscall and the in-place placement of the control
//! block are pointer work owned by the embedding program.

use vstd::prelude::*;

use crate::ShmDefinition;

verus! {

/// The fixed bound, in seconds, of one blocking wait on a condition.
pub const WAIT_TIMEOUT_SECS: u64 = 30;

/// A mutex living at the start of a shared memory region. The owner role
/// initializes it; the model tracks the held/free state, and acquiring a
/// lock one already holds is ruled out — in the real primitive that call
/// would deadlock the caller.
pub struct ShmMutex {
    pub definition: ShmDefinition,
    pub locked: bool,
}

impl ShmMutex {
    /// Owner role: constructs the process-shared attribute and initializes
    /// the mutex in place at the region's base, unlocked. Only the handle
    /// returned here carries the obligation to destroy the primitive.
    pub fn init_in_shm(definition: ShmDefinition) -> (m: ShmMutex)
        ensures
            m.definition == definition,
            !m.locked,
    {
        ShmMutex { definition, locked: false }
    }

    /// Acquires the mutex.
    pub fn lock(&mut self)
        requires
            !old(self).locked,
        ensures
            final(self).locked,
            final(self).definition == old(self).definition,
    {
        self.locked = true;
    }

    /// Releases the mutex.
    pub fn unlock(&mut self)
        requires
            old(self).locked,
        ensures
            !final(self).locked,
            final(self).definition == old(self).definition,
    {
        self.locked = false;
    }

    /// Whether the mutex is currently held.
    pub fn is_locked(&self) -> (b: bool)
        ensures
            b == self.locked,
    {
        self.locked
    }
}

/// The outcome of one bounded wait on a condition: a notification arrived
/// after the wait began, or the bound elapsed. A timeout is not an error;
/// the caller re-checks its predicate and decides whether to retry.
#[derive(Clone, Copy, Debug, PartialEq, Eq, Structural)]
pub enum WaitOutcome {
    Notified,
    TimedOut,
}

/// What one bounded block on the underlying word reports: the waiter was
/// woken; the word no longer held the expected generation when the block
/// began; the block was interrupted; or the bound elapsed.
#[derive(Clone, Copy, Debug, PartialEq, Eq, Structural)]
pub enum WaitSignal {
    Woken,
    ValueMismatch,
    Interrupted,
    TimedOut,
}

/// What the wait loop does with a signal: block again with the same
/// expected generation, or return an outcome to the caller.
#[derive(Clone, Copy, Debug, PartialEq, Eq, Structural)]
pub enum WaitDecision {
    Retry,
    Done(WaitOutcome),
}

/// The decision at the heart of the wait loop: an interrupted block is
/// retried with the same expected generation; a mismatched generation or a
/// wakeup ends the wait as notified; an elapsed bound ends it as timed out.
pub fn wait_step(signal: WaitSignal) -> (d: WaitDecision)
    ensures
        d == (match signal {
            WaitSignal::Interrupted => WaitDecision::Retry,
            WaitSignal::ValueMismatch => WaitDecision::Done(WaitOutcome::Notified),
            WaitSignal::Woken => WaitDecision::Done(WaitOutcome::Notified),
            WaitSignal::TimedOut => WaitDecision::Done(WaitOutcome::TimedOut),
        }),
{
    match signal {
        WaitSignal::Interrupted => WaitDecision::Retry,
        WaitSignal::ValueMismatch => WaitDecision::Done(WaitOutcome::Notified),
        WaitSignal::Woken => WaitDecision::Done(WaitOutcome::Notified),
        WaitSignal::TimedOut => WaitDecision::Done(WaitOutcome::TimedOut),
    }
}

/// A condition variable living in a shared memory region: a one-word
/// generation counter. Waiters remember the generation they observed and
/// block until it moves; `notify_all` moves it and wakes everyone.
pub struct ShmCondition {
    pub definition: ShmDefinition,
    pub value: u32,
}

impl ShmCondition {
    /// Owner role: initializes the condition in place, starting the
    /// generation word at one.
    pub fn init_in_shm(definition: ShmDefinition) -> (c: ShmCondition)
        ensures
            c.definition == definition,
            c.value == 1,
    {
        ShmCondition { definition, value: 1 }
    }

    /// Wakes every waiter: bumps the generation word — wrapping on
    /// overflow — so that any wait begun at the previous generation returns
    /// promptly, then wakes all blocked waiters.
    pub fn notify_all(&mut self)
        ensures
            final(self).definition == old(self).definition,
            final(self).value == (if old(self).value == u32::MAX {
                0u32
            } else {
                (old(self).value + 1) as u32
            }),
    {
        self.value = self.value.wrapping_add(1);
    }

    /// The read of the generation word that a waiter performs, under the
    /// pair's lock, at the moment its wait begins.
    pub fn observe(&self) -> (v: u32)
        ensures
            v == self.value,
    {
        self.value
    }

    /// Ends one bounded wait that began when the generation word read
    /// `expected`: if the word has moved, a notification arrived and the
    /// wait returns promptly, well under the bound; otherwise the full
    /// bound elapsed.
    pub fn finish_wait(&self, expected: u32) -> (o: WaitOutcome)
        ensures
            o == (if self.value != expected {
                WaitOutcome::Notified
            } else {
                WaitOutcome::TimedOut
            }),
    {
        if self.value != expected {
            WaitOutcome::Notified
        } else {
            WaitOutcome::TimedOut
        }
    }

    /// One whole bounded wait with no intervening notification: the
    /// generation word is observed under the lock, and within a single
    /// borrow of the condition nothing can move it, so the bound elapses.
    /// A notification that arrives while a waiter is blocked is modeled by
    /// `observe`, the intervening `notify_all`, and `finish_wait`.
    pub fn wait(&self, mutex: &mut ShmMutex) -> (o: WaitOutcome)
        requires
            !old(mutex).locked,
        ensures
            *final(mutex) == *old(mutex),
            o == WaitOutcome::TimedOut,
    {
        mutex.lock();
        let expected = self.observe();
        mutex.unlock();
        self.finish_wait(expected)
    }
}

} // verus!
