use vstd::prelude::*;

use crate::wait::{initial, AbortWait};

verus! {

/// How a registered task is scheduled.
#[derive(Debug, Clone, Copy, PartialEq, Eq, Structural)]
pub enum TaskKind {
    /// Run on the cooperative scheduler.
    Concurrent,
    /// Run on a resource reserved for blocking work.
    Blocking,
}

/// A registration in progress: the task's name and the cleanup action
/// attached to it, if any. `C` is whatever the caller runs as cleanup.
pub struct TaskRegistration<C> {
    pub who: String,
    pub cleanup: Option<C>,
}

impl<C> TaskRegistration<C> {
    /// Begins the registration of a task named `who`, without cleanup.
    pub fn new(who: String) -> (r: TaskRegistration<C>)
        ensures
            r.who == who,
            r.cleanup is None,
    {
        TaskRegistration { who, cleanup: None }
    }

    /// Attaches `cleanup` to this registration, replacing any earlier one.
    pub fn with_cleanup(self, cleanup: C) -> (r: TaskRegistration<C>)
        ensures
            r.who == self.who,
            r.cleanup == Some(cleanup),
    {
        TaskRegistration { who: self.who, cleanup: Some(cleanup) }
    }
}

/// The registered tasks, in registration order.
pub struct RegistryModel<C> {
    pub tasks: Seq<(String, TaskKind)>,
    pub cleanups: Seq<C>,
}

/// The cleanup actions that one registration adds: none, or its own.
pub open spec fn cleanup_seq<C>(cleanup: Option<C>) -> Seq<C> {
    match cleanup {
        Some(c) => seq![c],
        None => Seq::empty(),
    }
}

/// Everything registered with a spawner: each task with the way it is
/// scheduled, and the cleanup actions, in the order of registration.
pub struct TaskRegistry<C> {
    tasks: Vec<(String, TaskKind)>,
    cleanups: Vec<C>,
}

impl<C> View for TaskRegistry<C> {
    type V = RegistryModel<C>;

    closed spec fn view(&self) -> RegistryModel<C> {
        RegistryModel { tasks: self.tasks@, cleanups: self.cleanups@ }
    }
}

impl<C> TaskRegistry<C> {
    /// An empty registry.
    pub fn new() -> (r: TaskRegistry<C>)
        ensures
            r@.tasks.len() == 0,
            r@.cleanups.len() == 0,
    {
        TaskRegistry { tasks: Vec::new(), cleanups: Vec::new() }
    }

    /// Finalizes `reg` as a task of the given kind: the task is appended,
    /// and so is its cleanup action, if it has one. Returns the task's name,
    /// to be bound to its handle.
    pub fn register(&mut self, reg: TaskRegistration<C>, kind: TaskKind) -> (who: String)
        ensures
            who == reg.who,
            final(self)@.tasks == old(self)@.tasks.push((reg.who, kind)),
            final(self)@.cleanups == old(self)@.cleanups + cleanup_seq(reg.cleanup),
    {
        let TaskRegistration { who, cleanup } = reg;
        match cleanup {
            Some(c) => {
                self.cleanups.push(c);
            },
            None => {},
        }
        proof {
            assert(self@.cleanups =~= old(self)@.cleanups + cleanup_seq(cleanup));
        }
        let name = who.clone();
        self.tasks.push((who, kind));
        name
    }

    /// The registered tasks, in registration order.
    pub fn tasks(&self) -> (r: &Vec<(String, TaskKind)>)
        ensures
            r@ == self@.tasks,
    {
        &self.tasks
    }

    /// The registered cleanup actions, in registration order.
    pub fn cleanups(&self) -> (r: &Vec<C>)
        ensures
            r@ == self@.cleanups,
    {
        &self.cleanups
    }

    /// Closes registration and begins the terminal wait: returns the wait,
    /// in its initial state over every registered cleanup action, and those
    /// actions in registration order.
    pub fn start_wait(self) -> (r: (AbortWait, Vec<C>))
        ensures
            r.0.wf(),
            r.0@ == initial(self@.cleanups.len()),
            r.1@ == self@.cleanups,
    {
        let wait = AbortWait::new(self.cleanups.len());
        (wait, self.cleanups)
    }
}

} // verus!
