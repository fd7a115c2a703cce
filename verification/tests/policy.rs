use insomniad::controller::{CycleNext, HysteresisError, SuspendController, SUSPEND_RETRY_BACKOFF_MS};
use insomniad::wakeup_count::{classify_commit_write, CommitOutcome, WakeupCountToken, ERRNO_EBUSY, ERRNO_EINVAL};
use insomniad::suspend::{
    classify_suspend_write, select_mode, ModeError, SleepAction, SleepOutcome, SuspendActuator,
};
use insomniad::time::MonotonicTimeMS;

#[test]
fn timestamp_subtraction_is_difference_in_ms() {
    let a = MonotonicTimeMS(1500);
    let b = MonotonicTimeMS(1000);
    assert_eq!(a.sub(b), 500);
}

#[test]
fn timestamp_from_timespec_floors_to_ms() {
    assert_eq!(MonotonicTimeMS::from_timespec(1, 2_999_999), MonotonicTimeMS(1002));
    assert_eq!(MonotonicTimeMS::from_timespec(0, 0), MonotonicTimeMS(0));
    assert_eq!(MonotonicTimeMS::from_timespec(-5, 1), MonotonicTimeMS(0));
}

#[test]
fn clock_is_monotonic_and_nonzero() {
    let a = MonotonicTimeMS::now();
    let b = MonotonicTimeMS::now();
    assert!(a.0 <= b.0);
    assert!(b.0 > 0);
}

#[test]
fn hysteresis_waits_the_remainder() {
    let c = SuspendController::new(10000);
    let wait = c.hysteresis_wait(Some(MonotonicTimeMS(4000)), MonotonicTimeMS(7000));
    assert_eq!(wait, Ok(7000));
}

#[test]
fn hysteresis_elapsed_proceeds_without_wait() {
    let c = SuspendController::new(10000);
    let wait = c.hysteresis_wait(Some(MonotonicTimeMS(4000)), MonotonicTimeMS(14000));
    assert_eq!(wait, Ok(0));
    let wait = c.hysteresis_wait(Some(MonotonicTimeMS(4000)), MonotonicTimeMS(99000));
    assert_eq!(wait, Ok(0));
}

#[test]
fn hysteresis_without_event_proceeds_without_wait() {
    let c = SuspendController::new(10000);
    assert_eq!(c.hysteresis_wait(None, MonotonicTimeMS(1)), Ok(0));
}

#[test]
fn hysteresis_event_in_future_fails_loudly() {
    let c = SuspendController::new(10000);
    let wait = c.hysteresis_wait(Some(MonotonicTimeMS(5000)), MonotonicTimeMS(4999));
    assert_eq!(wait, Err(HysteresisError::EventInFuture));
}

#[test]
fn commit_payload_is_byte_identical() {
    let token = WakeupCountToken::begin("12345\n".to_string());
    assert_eq!(token.payload(), "12345\n");
}

#[test]
fn changed_counter_restarts_cycle_without_suspend() {
    let c = SuspendController::new(10000);
    let outcome = classify_commit_write(Err(Some(ERRNO_EINVAL)));
    assert_eq!(outcome, CommitOutcome::CounterChanged);
    assert_eq!(c.after_commit(outcome), CycleNext::Restart { backoff_ms: 0 });
}

#[test]
fn autosleep_busy_restarts_cycle() {
    let c = SuspendController::new(10000);
    let outcome = classify_commit_write(Err(Some(ERRNO_EBUSY)));
    assert_eq!(outcome, CommitOutcome::AutosleepBusy);
    assert_eq!(c.after_commit(outcome), CycleNext::Restart { backoff_ms: 0 });
}

#[test]
fn clean_commit_allows_suspend() {
    let c = SuspendController::new(10000);
    let outcome = classify_commit_write(Ok(()));
    assert_eq!(outcome, CommitOutcome::Clean);
    assert_eq!(c.after_commit(outcome), CycleNext::AttemptSuspend);
}

#[test]
fn unknown_errno_is_fatal() {
    assert_eq!(classify_commit_write(Err(Some(5))), CommitOutcome::Fatal);
    assert_eq!(classify_commit_write(Err(None)), CommitOutcome::Fatal);
    let c = SuspendController::new(10000);
    assert_eq!(c.after_commit(CommitOutcome::Fatal), CycleNext::Abort);
}

#[test]
fn suspend_write_outcomes() {
    assert_eq!(classify_suspend_write(Ok(())), SleepOutcome::Suspended);
    assert_eq!(classify_suspend_write(Err(Some(ERRNO_EBUSY))), SleepOutcome::Busy);
    assert_eq!(classify_suspend_write(Err(Some(5))), SleepOutcome::Fatal);
    assert_eq!(classify_suspend_write(Err(None)), SleepOutcome::Fatal);
}

#[test]
fn resumed_sleep_waits_full_hysteresis() {
    let c = SuspendController::new(12345);
    assert_eq!(c.after_sleep(SleepOutcome::Suspended), CycleNext::ResumeWait { wait_ms: 12345 });
}

#[test]
fn busy_sleep_backs_off_one_second() {
    let c = SuspendController::new(12345);
    assert_eq!(
        c.after_sleep(SleepOutcome::Busy),
        CycleNext::Restart { backoff_ms: SUSPEND_RETRY_BACKOFF_MS }
    );
    assert_eq!(SUSPEND_RETRY_BACKOFF_MS, 1000);
}

#[test]
fn dry_run_sleep_simulates_and_succeeds() {
    let a = SuspendActuator::new(true, "mem freeze", None).unwrap();
    assert!(a.dry_run);
    assert_eq!(a.plan_sleep(), SleepAction::Simulate);
}

#[test]
fn real_run_writes_the_mode() {
    let a = SuspendActuator::new(false, "mem freeze", None).unwrap();
    assert!(!a.dry_run);
    assert_eq!(a.plan_sleep(), SleepAction::WriteMode);
    assert_eq!(&a.mode, "mem");
}

#[test]
fn explicit_supported_mode_wins() {
    assert_eq!(select_mode("mem freeze", Some("freeze")), Ok("freeze".to_string()));
}

#[test]
fn explicit_unsupported_mode_is_fatal() {
    assert_eq!(select_mode("mem freeze", Some("standby")), Err(ModeError::Unsupported));
}

#[test]
fn empty_mode_list_is_fatal_regardless_of_request() {
    assert_eq!(select_mode("", None), Err(ModeError::NoModes));
    assert_eq!(select_mode("\n", None), Err(ModeError::NoModes));
    assert_eq!(select_mode("", Some("mem")), Err(ModeError::Unsupported));
}

#[test]
fn default_selection_prefers_mem_then_freeze_then_first() {
    assert_eq!(select_mode("standby mem freeze\n", None), Ok("mem".to_string()));
    assert_eq!(select_mode("standby freeze\n", None), Ok("freeze".to_string()));
    assert_eq!(select_mode("standby disk\n", None), Ok("standby".to_string()));
}
