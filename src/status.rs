use vstd::prelude::*;

verus! {

/// One of the two causes that end the terminal wait.
#[derive(Debug, Clone, Copy, PartialEq, Eq, Structural)]
pub enum AborterStatus {
    /// The operator asked the process to stop.
    UserShutdownLedger,
    /// A monitored task exited on its own.
    ChildProcessTerminated,
}

impl AborterStatus {
    /// Checks whether the wait ended because a monitored task exited.
    pub fn child_terminated(self) -> (r: bool)
        ensures
            r == (self is ChildProcessTerminated),
    {
        matches!(self, AborterStatus::ChildProcessTerminated)
    }
}

/// What the terminal wait decided: the cause, and the task that exited,
/// where one was identified.
#[derive(Debug, Clone, PartialEq, Eq)]
pub struct AbortOutcome {
    pub status: AborterStatus,
    pub task: Option<String>,
}

impl AbortOutcome {
    /// The outcome of an operator-requested shutdown.
    pub fn user_shutdown() -> (r: AbortOutcome)
        ensures
            r.status == AborterStatus::UserShutdownLedger,
            r.task is None,
    {
        AbortOutcome { status: AborterStatus::UserShutdownLedger, task: None }
    }

    /// The outcome of a task exit; `task` is `None` when every sender was
    /// gone before any notification arrived.
    pub fn task_exited(task: Option<String>) -> (r: AbortOutcome)
        ensures
            r.status == AborterStatus::ChildProcessTerminated,
            r.task == task,
    {
        AbortOutcome { status: AborterStatus::ChildProcessTerminated, task }
    }

    /// Checks whether the outcome was caused by a task exit.
    pub fn child_terminated(&self) -> (r: bool)
        ensures
            r == (self.status is ChildProcessTerminated),
    {
        self.status.child_terminated()
    }
}

} // verus!
