use crate::metric::PingStatus;
use vstd::prelude::*;

verus! {

/// Where one target's task stands.
#[derive(Copy, Clone, Debug, PartialEq, Eq, Structural)]
pub enum TaskState {
    /// Waiting for the next tick.
    Idle,
    /// Running the `attempts`-th attempt of the current tick. A cancellation
    /// that arrives meanwhile takes effect when the tick ends.
    Probing { attempts: u8, cancel_pending: bool },
    /// Stopped for good.
    Cancelled,
}

/// What the task's loop observed.
#[derive(Copy, Clone, Debug, PartialEq, Eq, Structural)]
pub enum TaskEvent {
    TickFired,
    CancelRequested,
    /// The current attempt ended with an outcome of this class; the outcome
    /// itself is recorded whatever it is.
    AttemptFinished(PingStatus),
}

/// What the task's loop does next.
#[derive(Copy, Clone, Debug, PartialEq, Eq, Structural)]
pub enum TaskAction {
    /// Wait for the next tick or for cancellation, whichever comes first.
    WaitForTick,
    /// Start a probe attempt.
    StartAttempt,
    /// Keep waiting for the attempt in flight.
    AwaitAttempt,
    /// End the task.
    Stop,
}

/// The decisions of one target's periodic task: up to `retries` attempts per
/// tick, retrying only after a Failure.
#[derive(Copy, Clone, Debug)]
pub struct Scheduler {
    retries: u8,
    state: TaskState,
}

impl View for Scheduler {
    type V = (u8, TaskState);

    closed spec fn view(&self) -> (u8, TaskState) {
        (self.retries, self.state)
    }
}

/// The transition of a task with at most `retries` attempts per tick.
pub open spec fn next(retries: u8, s: TaskState, e: TaskEvent) -> (TaskState, TaskAction) {
    match s {
        TaskState::Cancelled => (TaskState::Cancelled, TaskAction::Stop),
        TaskState::Idle => match e {
            TaskEvent::TickFired => if retries == 0 {
                (TaskState::Idle, TaskAction::WaitForTick)
            } else {
                (TaskState::Probing { attempts: 1, cancel_pending: false }, TaskAction::StartAttempt)
            },
            TaskEvent::CancelRequested => (TaskState::Cancelled, TaskAction::Stop),
            TaskEvent::AttemptFinished(_) => (TaskState::Idle, TaskAction::WaitForTick),
        },
        TaskState::Probing { attempts, cancel_pending } => match e {
            TaskEvent::TickFired => (s, TaskAction::AwaitAttempt),
            TaskEvent::CancelRequested => (
                TaskState::Probing { attempts, cancel_pending: true },
                TaskAction::AwaitAttempt,
            ),
            TaskEvent::AttemptFinished(st) => if st == PingStatus::Failure && attempts < retries {
                (
                    TaskState::Probing { attempts: (attempts + 1) as u8, cancel_pending },
                    TaskAction::StartAttempt,
                )
            } else if cancel_pending {
                (TaskState::Cancelled, TaskAction::Stop)
            } else {
                (TaskState::Idle, TaskAction::WaitForTick)
            },
        },
    }
}

/// The attempt counter stays within the bound.
pub open spec fn state_wf(retries: u8, s: TaskState) -> bool {
    s matches TaskState::Probing { attempts, .. } ==> 1 <= attempts <= retries
}

/// Attempts that the rest of the current tick may still start.
pub open spec fn attempts_left(retries: u8, s: TaskState) -> nat {
    match s {
        TaskState::Probing { attempts, .. } => if attempts <= retries {
            (retries - attempts) as nat
        } else {
            0
        },
        _ => 0,
    }
}

/// The final state after a run of events, and how many attempts it started.
pub open spec fn drive(retries: u8, s: TaskState, evs: Seq<TaskEvent>) -> (TaskState, nat)
    decreases evs.len(),
{
    if evs.len() == 0 {
        (s, 0)
    } else {
        let (s1, a) = next(retries, s, evs[0]);
        let (s2, n) = drive(retries, s1, evs.drop_first());
        (s2, n + if a == TaskAction::StartAttempt { 1nat } else { 0nat })
    }
}

impl Scheduler {
    pub closed spec fn wf(&self) -> bool {
        state_wf(self.retries, self.state)
    }

    /// A task that waits for its first tick.
    pub fn new(retries: u8) -> (r: Scheduler)
        ensures
            r@ == (retries, TaskState::Idle),
            r.wf(),
    {
        Scheduler { retries, state: TaskState::Idle }
    }

    pub fn state(&self) -> (r: TaskState)
        ensures
            r == self@.1,
    {
        self.state
    }

    pub fn retries(&self) -> (r: u8)
        ensures
            r == self@.0,
    {
        self.retries
    }

    /// Takes one event and says what to do next.
    pub fn step(&mut self, e: TaskEvent) -> (r: TaskAction)
        requires
            old(self).wf(),
        ensures
            final(self).wf(),
            final(self)@.0 == old(self)@.0,
            (final(self)@.1, r) == next(old(self)@.0, old(self)@.1, e),
    {
        let (s, a) = match self.state {
            TaskState::Cancelled => (TaskState::Cancelled, TaskAction::Stop),
            TaskState::Idle => match e {
                TaskEvent::TickFired => if self.retries == 0 {
                    (TaskState::Idle, TaskAction::WaitForTick)
                } else {
                    (TaskState::Probing { attempts: 1, cancel_pending: false }, TaskAction::StartAttempt)
                },
                TaskEvent::CancelRequested => (TaskState::Cancelled, TaskAction::Stop),
                TaskEvent::AttemptFinished(_) => (TaskState::Idle, TaskAction::WaitForTick),
            },
            TaskState::Probing { attempts, cancel_pending } => match e {
                TaskEvent::TickFired => (self.state, TaskAction::AwaitAttempt),
                TaskEvent::CancelRequested => (
                    TaskState::Probing { attempts, cancel_pending: true },
                    TaskAction::AwaitAttempt,
                ),
                TaskEvent::AttemptFinished(st) => if st == PingStatus::Failure && attempts
                    < self.retries {
                    (TaskState::Probing { attempts: attempts + 1, cancel_pending }, TaskAction::StartAttempt)
                } else if cancel_pending {
                    (TaskState::Cancelled, TaskAction::Stop)
                } else {
                    (TaskState::Idle, TaskAction::WaitForTick)
                },
            },
        };
        self.state = s;
        a
    }
}

/// Within a tick, an attempt starts only after a Failure and while fewer
/// than `retries` attempts were made; a cancellation never ends an attempt
/// in flight.
pub proof fn lemma_step_discipline(retries: u8, s: TaskState, e: TaskEvent)
    requires
        state_wf(retries, s),
    ensures
        state_wf(retries, next(retries, s, e).0),
        next(retries, s, e).1 == TaskAction::StartAttempt ==> (s is Idle && e is TickFired) || (
        s is Probing && s->attempts < retries && e == TaskEvent::AttemptFinished(PingStatus::Failure)),
        (s is Probing && e is AttemptFinished && e->AttemptFinished_0 != PingStatus::Failure) ==> (
        next(retries, s, e).1 != TaskAction::StartAttempt && !(next(retries, s, e).0 is Probing)),
        s is Probing && e is CancelRequested ==> next(retries, s, e).0 is Probing,
{
}

proof fn lemma_drive_bounded(retries: u8, s: TaskState, evs: Seq<TaskEvent>)
    requires
        state_wf(retries, s),
        forall|i: int| 0 <= i < evs.len() ==> evs[i] != TaskEvent::TickFired,
    ensures
        drive(retries, s, evs).1 <= attempts_left(retries, s),
    decreases evs.len(),
{
    if evs.len() > 0 {
        let (s1, a) = next(retries, s, evs[0]);
        lemma_step_discipline(retries, s, evs[0]);
        assert forall|i: int| 0 <= i < evs.drop_first().len() implies evs.drop_first()[i]
            != TaskEvent::TickFired by {
            assert(evs.drop_first()[i] == evs[i + 1]);
        }
        lemma_drive_bounded(retries, s1, evs.drop_first());
    }
}

/// A tick never starts more than `retries` attempts, whatever their outcomes
/// and whether a cancellation arrives meanwhile.
pub proof fn lemma_tick_attempts_bounded(retries: u8, evs: Seq<TaskEvent>)
    requires
        forall|i: int| 0 <= i < evs.len() ==> evs[i] != TaskEvent::TickFired,
    ensures
        drive(retries, TaskState::Idle, seq![TaskEvent::TickFired] + evs).1 <= retries,
{
    let all = seq![TaskEvent::TickFired] + evs;
    assert(all[0] == TaskEvent::TickFired);
    assert(all.drop_first() =~= evs);
    let s1 = next(retries, TaskState::Idle, TaskEvent::TickFired).0;
    lemma_drive_bounded(retries, s1, evs);
}

/// `n` attempts in a row that each end in a Failure.
pub open spec fn failures(n: nat) -> Seq<TaskEvent> {
    Seq::new(n, |i: int| TaskEvent::AttemptFinished(PingStatus::Failure))
}

proof fn lemma_failures_from(retries: u8, a: u8)
    requires
        1 <= a <= retries,
    ensures
        drive(retries, TaskState::Probing { attempts: a, cancel_pending: false }, failures((retries - a + 1) as nat))
            == (TaskState::Idle, (retries - a) as nat),
    decreases retries - a,
{
    let s = TaskState::Probing { attempts: a, cancel_pending: false };
    let evs = failures((retries - a + 1) as nat);
    assert(evs.len() > 0);
    assert(evs[0] == TaskEvent::AttemptFinished(PingStatus::Failure));
    if a < retries {
        let s1 = TaskState::Probing { attempts: (a + 1) as u8, cancel_pending: false };
        assert(next(retries, s, evs[0]) == (s1, TaskAction::StartAttempt));
        assert(evs.drop_first() =~= failures((retries - (a + 1) + 1) as nat));
        lemma_failures_from(retries, (a + 1) as u8);
        assert(drive(retries, s1, evs.drop_first()) == (TaskState::Idle, (retries - (a + 1)) as nat));
    } else {
        assert(next(retries, s, evs[0]) == (TaskState::Idle, TaskAction::WaitForTick));
        assert(evs.drop_first() =~= Seq::<TaskEvent>::empty());
        assert(drive(retries, TaskState::Idle, evs.drop_first()) == (TaskState::Idle, 0nat));
    }
}

/// When every attempt fails, a tick starts exactly `retries` attempts, one
/// for each failure it then records, and ends waiting for the next tick.
pub proof fn lemma_failing_tick(retries: u8)
    requires
        retries >= 1,
    ensures
        drive(retries, TaskState::Idle, seq![TaskEvent::TickFired] + failures(retries as nat)) == (
            TaskState::Idle,
            retries as nat,
        ),
{
    let all = seq![TaskEvent::TickFired] + failures(retries as nat);
    assert(all[0] == TaskEvent::TickFired);
    assert(all.drop_first() =~= failures(retries as nat));
    lemma_failures_from(retries, 1);
}

} // verus!
