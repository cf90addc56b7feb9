use vstd::prelude::*;

use crate::status::{AbortOutcome, AborterStatus};

verus! {

/// What the terminal wait observes: one of the three sides of the race
/// between the shutdown signal and the notification channel, or the end of
/// the cleanup action that it last asked to run.
#[derive(Debug, Clone, PartialEq, Eq)]
pub enum WaitEvent {
    /// The operator requested termination.
    ShutdownRequested,
    /// A notification arrived, naming the task whose handle was dropped.
    TaskExited(String),
    /// The channel closed without a message: every sender was already gone.
    ChannelClosed,
    /// The cleanup action most recently started has run to completion.
    CleanupDone,
}

/// What the driver of the terminal wait does next.
#[derive(Debug, Clone, PartialEq, Eq)]
pub enum WaitAction {
    /// Nothing to do: keep waiting for another event.
    KeepWaiting,
    /// Run the cleanup action at this registration index, then report
    /// `CleanupDone`.
    RunCleanup(usize),
    /// All cleanup actions have run: return this outcome.
    Return(AbortOutcome),
}

/// Abstract state of the terminal wait: the decided outcome (none while the
/// race is open), the index of the cleanup action now running (or the count
/// of those finished), and the number of registered cleanup actions.
pub struct WaitModel {
    pub outcome: Option<AbortOutcome>,
    pub next: nat,
    pub total: nat,
}

/// The decision procedure of the terminal wait: it races the shutdown signal
/// against the notification channel, then runs the cleanup actions strictly
/// in registration order, and only then returns the decided outcome.
pub struct AbortWait {
    outcome: Option<AbortOutcome>,
    next_cleanup: usize,
    cleanups: usize,
}

/// The outcome that a race event decides; `None` for an event that is not
/// part of the race.
pub open spec fn race_outcome(e: WaitEvent) -> Option<AbortOutcome> {
    match e {
        WaitEvent::ShutdownRequested => Some(
            AbortOutcome { status: AborterStatus::UserShutdownLedger, task: None },
        ),
        WaitEvent::TaskExited(t) => Some(
            AbortOutcome { status: AborterStatus::ChildProcessTerminated, task: Some(t) },
        ),
        WaitEvent::ChannelClosed => Some(
            AbortOutcome { status: AborterStatus::ChildProcessTerminated, task: None },
        ),
        WaitEvent::CleanupDone => None,
    }
}

/// The wait before any event: the race is open, nothing has run.
pub open spec fn initial(total: nat) -> WaitModel {
    WaitModel { outcome: None, next: 0, total }
}

/// The action that follows once `n` cleanup actions out of `total` have
/// finished: the next one, or the return of `o`.
pub open spec fn after_cleanups(n: nat, total: nat, o: AbortOutcome) -> WaitAction {
    if n < total {
        WaitAction::RunCleanup(n as usize)
    } else {
        WaitAction::Return(o)
    }
}

/// One transition of the terminal wait: the next state and the action.
pub open spec fn step(s: WaitModel, e: WaitEvent) -> (WaitModel, WaitAction) {
    match s.outcome {
        None => match race_outcome(e) {
            None => (s, WaitAction::KeepWaiting),
            Some(o) => (
                WaitModel { outcome: Some(o), next: 0, total: s.total },
                after_cleanups(0, s.total, o),
            ),
        },
        Some(o) => if s.next < s.total && e is CleanupDone {
            (
                WaitModel { outcome: Some(o), next: s.next + 1, total: s.total },
                after_cleanups(s.next + 1, s.total, o),
            )
        } else {
            (s, WaitAction::KeepWaiting)
        },
    }
}

impl AbortOutcome {
    fn copy_of(&self) -> (r: AbortOutcome)
        ensures
            r == *self,
    {
        let task = match &self.task {
            Some(t) => Some(t.clone()),
            None => None,
        };
        AbortOutcome { status: self.status, task }
    }
}

fn decide(e: &WaitEvent) -> (r: Option<AbortOutcome>)
    ensures
        r == race_outcome(*e),
{
    match e {
        WaitEvent::ShutdownRequested => Some(AbortOutcome::user_shutdown()),
        WaitEvent::TaskExited(t) => Some(AbortOutcome::task_exited(Some(t.clone()))),
        WaitEvent::ChannelClosed => Some(AbortOutcome::task_exited(None)),
        WaitEvent::CleanupDone => None,
    }
}

impl View for AbortWait {
    type V = WaitModel;

    closed spec fn view(&self) -> WaitModel {
        WaitModel {
            outcome: self.outcome,
            next: self.next_cleanup as nat,
            total: self.cleanups as nat,
        }
    }
}

/// A reachable state: the count of finished cleanup actions never passes
/// the total, and none has started before the race was decided.
pub open spec fn model_wf(s: WaitModel) -> bool {
    &&& s.next <= s.total
    &&& s.outcome is None ==> s.next == 0
    &&& s.total <= usize::MAX
}

impl AbortWait {
    pub open spec fn wf(&self) -> bool {
        model_wf(self@)
    }

    /// Starts the terminal wait over `cleanups` registered cleanup actions.
    pub fn new(cleanups: usize) -> (r: AbortWait)
        ensures
            r.wf(),
            r@ == initial(cleanups as nat),
    {
        AbortWait { outcome: None, next_cleanup: 0, cleanups }
    }

    /// The outcome, once the race has been decided.
    pub fn outcome(&self) -> (r: Option<AbortOutcome>)
        ensures
            r == self@.outcome,
    {
        match &self.outcome {
            Some(o) => Some(o.copy_of()),
            None => None,
        }
    }

    /// Checks whether the wait has returned its outcome.
    pub fn is_finished(&self) -> (r: bool)
        requires
            self.wf(),
        ensures
            r == (self@.outcome is Some && self@.next == self@.total),
    {
        self.outcome.is_some() && self.next_cleanup == self.cleanups
    }

    /// Takes in one event and says what to do next. The first race event
    /// decides the outcome; later race events change nothing. Cleanup
    /// actions are asked for one at a time, in registration order, and the
    /// outcome is returned only after the last of them is done.
    pub fn on_event(&mut self, e: WaitEvent) -> (a: WaitAction)
        requires
            old(self).wf(),
        ensures
            final(self).wf(),
            (final(self)@, a) == step(old(self)@, e),
    {
        match &self.outcome {
            None => match decide(&e) {
                None => WaitAction::KeepWaiting,
                Some(o) => {
                    self.next_cleanup = 0;
                    let a = if 0 < self.cleanups {
                        WaitAction::RunCleanup(0)
                    } else {
                        WaitAction::Return(o.copy_of())
                    };
                    self.outcome = Some(o);
                    a
                },
            },
            Some(o) => {
                if self.next_cleanup < self.cleanups && matches!(e, WaitEvent::CleanupDone) {
                    let n = self.next_cleanup + 1;
                    let a = if n < self.cleanups {
                        WaitAction::RunCleanup(n)
                    } else {
                        WaitAction::Return(o.copy_of())
                    };
                    self.next_cleanup = n;
                    a
                } else {
                    WaitAction::KeepWaiting
                }
            },
        }
    }
}

} // verus!
