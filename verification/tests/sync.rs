use shmtest::pthread::{
    wait_step, ShmCondition, ShmMutex, WaitDecision, WaitOutcome, WaitSignal, WAIT_TIMEOUT_SECS,
};
use shmtest::shm_syncer::{ShmSync, SYNC_REGION_BYTES};
use shmtest::ShmDefinition;

#[test]
fn pair_derives_sub_names_and_initializes_primitives() {
    let sync = ShmSync::create("test".to_string());
    assert_eq!(sync.mutex.definition.name, "test_mutex");
    assert_eq!(sync.mutex.definition.size, SYNC_REGION_BYTES);
    assert!(!sync.mutex.locked);
    assert_eq!(sync.condition.definition.name, "test_condvar");
    assert_eq!(sync.condition.definition.size, SYNC_REGION_BYTES);
    assert_eq!(sync.condition.value, 1);
}

#[test]
fn wait_with_no_pending_notification_times_out() {
    // the bounded wait elapses; the outcome is a timeout, not an error
    let mut sync = ShmSync::create("test".to_string());
    assert_eq!(sync.wait(), WaitOutcome::TimedOut);
    // the pair is as it was: the caller may simply retry
    assert_eq!(sync.wait(), WaitOutcome::TimedOut);
    assert!(!sync.mutex.locked);
}

#[test]
fn notification_during_wait_returns_promptly() {
    // a wait begins (the generation is observed), the owner notifies while
    // the waiter is blocked, and the wait ends notified
    let mut sync = ShmSync::create("test".to_string());
    let expected = sync.observe();
    sync.notify_all();
    assert_eq!(sync.finish_wait(expected), WaitOutcome::Notified);
    // without an intervening notification the same wait times out
    let expected = sync.observe();
    assert_eq!(sync.finish_wait(expected), WaitOutcome::TimedOut);
}

#[test]
fn every_notification_moves_the_generation() {
    let mut sync = ShmSync::create("test".to_string());
    let before = sync.condition.value;
    sync.notify_all();
    assert_eq!(sync.condition.value, before + 1);
    sync.notify_all();
    assert_eq!(sync.condition.value, before + 2);
}

#[test]
fn generation_wraps_instead_of_overflowing() {
    let mut condition =
        ShmCondition::init_in_shm(ShmDefinition::new("condition".to_string(), 4));
    condition.value = u32::MAX;
    condition.notify_all();
    assert_eq!(condition.value, 0);
}

#[test]
fn condition_wait_takes_and_returns_the_lock() {
    let condition = ShmCondition::init_in_shm(ShmDefinition::new("condition".to_string(), 4));
    let mut mutex = ShmMutex::init_in_shm(ShmDefinition::new("mutex".to_string(), 4));
    assert_eq!(condition.wait(&mut mutex), WaitOutcome::TimedOut);
    assert!(!mutex.is_locked());
}

#[test]
fn condition_observe_and_finish_model_the_blocked_window() {
    let mut condition =
        ShmCondition::init_in_shm(ShmDefinition::new("condition".to_string(), 4));
    assert_eq!(condition.value, 1);
    let expected = condition.observe();
    condition.notify_all();
    assert_eq!(condition.finish_wait(expected), WaitOutcome::Notified);
    assert_eq!(condition.finish_wait(condition.observe()), WaitOutcome::TimedOut);
}

#[test]
fn mutex_locks_and_unlocks() {
    let mut mutex = ShmMutex::init_in_shm(ShmDefinition::new("mutex".to_string(), 4));
    assert!(!mutex.is_locked());
    mutex.lock();
    assert!(mutex.is_locked());
    mutex.unlock();
    assert!(!mutex.is_locked());
}

#[test]
fn wait_loop_decisions_follow_the_signal() {
    assert_eq!(wait_step(WaitSignal::Interrupted), WaitDecision::Retry);
    assert_eq!(
        wait_step(WaitSignal::ValueMismatch),
        WaitDecision::Done(WaitOutcome::Notified)
    );
    assert_eq!(
        wait_step(WaitSignal::Woken),
        WaitDecision::Done(WaitOutcome::Notified)
    );
    assert_eq!(
        wait_step(WaitSignal::TimedOut),
        WaitDecision::Done(WaitOutcome::TimedOut)
    );
}

#[test]
fn wait_bound_is_thirty_seconds() {
    assert_eq!(WAIT_TIMEOUT_SECS, 30);
}
