use pinger::metric::PingStatus;
use pinger::scheduler::{Scheduler, TaskAction, TaskEvent, TaskState};

/// Runs one tick whose attempts end with the given outcomes, in turn, and
/// counts the attempts started.
fn tick(s: &mut Scheduler, outcomes: &[PingStatus]) -> usize {
    let mut started = 0;
    let mut action = s.step(TaskEvent::TickFired);
    let mut it = outcomes.iter();
    while action == TaskAction::StartAttempt {
        started += 1;
        let o = *it.next().expect("an outcome for each attempt");
        action = s.step(TaskEvent::AttemptFinished(o));
    }
    started
}

#[test]
fn retries_after_failures_only() {
    let mut s = Scheduler::new(3);
    assert_eq!(tick(&mut s, &[PingStatus::Failure, PingStatus::Failure, PingStatus::Success]), 3);
    assert_eq!(s.state(), TaskState::Idle);
    assert_eq!(tick(&mut s, &[PingStatus::Success]), 1);
    assert_eq!(tick(&mut s, &[PingStatus::Timeout]), 1);
    assert_eq!(tick(&mut s, &[PingStatus::Failure, PingStatus::Timeout]), 2);
}

#[test]
fn never_more_than_retries() {
    let mut s = Scheduler::new(2);
    assert_eq!(tick(&mut s, &[PingStatus::Failure, PingStatus::Failure, PingStatus::Failure]), 2);
    assert_eq!(s.state(), TaskState::Idle);
    assert_eq!(s.retries(), 2);
}

#[test]
fn zero_retries_never_probes() {
    let mut s = Scheduler::new(0);
    assert_eq!(tick(&mut s, &[]), 0);
    assert_eq!(s.state(), TaskState::Idle);
}

#[test]
fn cancellation_between_ticks_stops() {
    let mut s = Scheduler::new(1);
    assert_eq!(s.step(TaskEvent::CancelRequested), TaskAction::Stop);
    assert_eq!(s.state(), TaskState::Cancelled);
    assert_eq!(s.step(TaskEvent::TickFired), TaskAction::Stop);
}

#[test]
fn cancellation_waits_for_the_attempt() {
    let mut s = Scheduler::new(3);
    assert_eq!(s.step(TaskEvent::TickFired), TaskAction::StartAttempt);
    assert_eq!(s.step(TaskEvent::CancelRequested), TaskAction::AwaitAttempt);
    assert_eq!(s.state(), TaskState::Probing { attempts: 1, cancel_pending: true });
    assert_eq!(s.step(TaskEvent::AttemptFinished(PingStatus::Failure)), TaskAction::StartAttempt);
    assert_eq!(s.step(TaskEvent::AttemptFinished(PingStatus::Success)), TaskAction::Stop);
    assert_eq!(s.state(), TaskState::Cancelled);
}
