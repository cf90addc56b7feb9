use task_abort::{
    AbortOutcome, AbortWait, AborterStatus, TaskKind, TaskRegistration, TaskRegistry, WaitAction,
    WaitEvent,
};

fn user() -> AbortOutcome {
    AbortOutcome::user_shutdown()
}

fn exited(name: &str) -> AbortOutcome {
    AbortOutcome::task_exited(Some(name.to_string()))
}

/// Registers one task per name, each with its own cleanup id.
fn registry_with_cleanups(names: &[&str]) -> TaskRegistry<u32> {
    let mut reg = TaskRegistry::new();
    for (i, n) in names.iter().enumerate() {
        let r = TaskRegistration::new(n.to_string()).with_cleanup(i as u32 + 10);
        reg.register(r, TaskKind::Concurrent);
    }
    reg
}

/// Drives the wait from a race event through every cleanup action and
/// returns the cleanup ids run, in order, and the outcome.
fn drive(reg: TaskRegistry<u32>, first: WaitEvent) -> (Vec<u32>, AbortOutcome) {
    let (mut wait, jobs) = reg.start_wait();
    let mut ran = Vec::new();
    let mut action = wait.on_event(first);
    loop {
        match action {
            WaitAction::RunCleanup(i) => {
                ran.push(jobs[i]);
                action = wait.on_event(WaitEvent::CleanupDone);
            }
            WaitAction::Return(o) => return (ran, o),
            WaitAction::KeepWaiting => panic!("the wait stalled"),
        }
    }
}

#[test]
fn child_terminated_tells_the_variants_apart() {
    assert!(AborterStatus::ChildProcessTerminated.child_terminated());
    assert!(!AborterStatus::UserShutdownLedger.child_terminated());
    assert!(exited("a").child_terminated());
    assert!(!user().child_terminated());
}

#[test]
fn all_cleanups_run_in_order_after_shutdown() {
    let reg = registry_with_cleanups(&["a", "b", "c"]);
    let (ran, o) = drive(reg, WaitEvent::ShutdownRequested);
    assert_eq!(ran, vec![10, 11, 12]);
    assert_eq!(o, user());
    assert_eq!(o.status, AborterStatus::UserShutdownLedger);
}

#[test]
fn all_cleanups_run_in_order_after_task_exit() {
    let reg = registry_with_cleanups(&["a", "b", "c", "d"]);
    let (ran, o) = drive(reg, WaitEvent::TaskExited("c".to_string()));
    assert_eq!(ran, vec![10, 11, 12, 13]);
    assert_eq!(o, exited("c"));
}

#[test]
fn shutdown_before_any_exit_is_user_shutdown() {
    let reg = registry_with_cleanups(&["ledger", "shell"]);
    let (_, o) = drive(reg, WaitEvent::ShutdownRequested);
    assert_eq!(o.status, AborterStatus::UserShutdownLedger);
    assert_eq!(o.task, None);
}

#[test]
fn task_exit_names_the_task() {
    let reg = registry_with_cleanups(&["ledger", "shell"]);
    let (_, o) = drive(reg, WaitEvent::TaskExited("shell".to_string()));
    assert_eq!(o.status, AborterStatus::ChildProcessTerminated);
    assert_eq!(o.task, Some("shell".to_string()));
}

#[test]
fn closed_channel_is_a_task_exit_without_name() {
    let reg = registry_with_cleanups(&["ledger"]);
    let (ran, o) = drive(reg, WaitEvent::ChannelClosed);
    assert_eq!(ran, vec![10]);
    assert_eq!(o.status, AborterStatus::ChildProcessTerminated);
    assert_eq!(o.task, None);
}

#[test]
fn no_tasks_then_shutdown_returns_at_once() {
    let reg: TaskRegistry<u32> = TaskRegistry::new();
    assert_eq!(reg.cleanups().len(), 0);
    let (mut wait, jobs) = reg.start_wait();
    assert!(jobs.is_empty());
    assert_eq!(wait.on_event(WaitEvent::ShutdownRequested), WaitAction::Return(user()));
    assert!(wait.is_finished());
}

#[test]
fn blocking_task_exit_first_is_reported() {
    let mut reg: TaskRegistry<u32> = TaskRegistry::new();
    let b = reg.register(TaskRegistration::new("Tendermint".to_string()), TaskKind::Blocking);
    let c = reg.register(TaskRegistration::new("Shell".to_string()), TaskKind::Concurrent);
    assert_eq!(b, "Tendermint");
    assert_eq!(c, "Shell");
    assert_eq!(
        reg.tasks().clone(),
        vec![
            ("Tendermint".to_string(), TaskKind::Blocking),
            ("Shell".to_string(), TaskKind::Concurrent),
        ]
    );
    let (ran, o) = drive(reg, WaitEvent::TaskExited(b));
    assert!(ran.is_empty());
    assert_eq!(o, exited("Tendermint"));
}

#[test]
fn two_exits_at_once_give_exactly_one_outcome() {
    let reg = registry_with_cleanups(&["a", "b"]);
    let (mut wait, _jobs) = reg.start_wait();
    let mut returned = Vec::new();
    let events = vec![
        WaitEvent::TaskExited("a".to_string()),
        WaitEvent::TaskExited("b".to_string()),
        WaitEvent::CleanupDone,
        WaitEvent::ShutdownRequested,
        WaitEvent::CleanupDone,
        WaitEvent::TaskExited("b".to_string()),
        WaitEvent::CleanupDone,
    ];
    for e in events {
        if let WaitAction::Return(o) = wait.on_event(e) {
            returned.push(o);
        }
    }
    assert_eq!(returned, vec![exited("a")]);
    assert_eq!(wait.outcome(), Some(exited("a")));
}

#[test]
fn hanging_cleanup_keeps_the_wait_open() {
    let reg = registry_with_cleanups(&["a"]);
    let (mut wait, _jobs) = reg.start_wait();
    assert_eq!(wait.on_event(WaitEvent::ShutdownRequested), WaitAction::RunCleanup(0));
    for _ in 0..100 {
        assert_eq!(wait.on_event(WaitEvent::TaskExited("a".to_string())), WaitAction::KeepWaiting);
        assert_eq!(wait.on_event(WaitEvent::ShutdownRequested), WaitAction::KeepWaiting);
    }
    assert!(!wait.is_finished());
    assert_eq!(wait.outcome(), Some(user()));
}

#[test]
fn cleanup_done_before_the_race_is_ignored() {
    let mut wait = AbortWait::new(2);
    assert_eq!(wait.on_event(WaitEvent::CleanupDone), WaitAction::KeepWaiting);
    assert_eq!(wait.outcome(), None);
    assert_eq!(wait.on_event(WaitEvent::ChannelClosed), WaitAction::RunCleanup(0));
    assert_eq!(wait.on_event(WaitEvent::CleanupDone), WaitAction::RunCleanup(1));
    assert_eq!(
        wait.on_event(WaitEvent::CleanupDone),
        WaitAction::Return(AbortOutcome::task_exited(None))
    );
    assert_eq!(wait.on_event(WaitEvent::CleanupDone), WaitAction::KeepWaiting);
}

#[test]
fn later_cleanup_replaces_earlier() {
    let r = TaskRegistration::new("a".to_string()).with_cleanup(1u32).with_cleanup(2u32);
    assert_eq!(r.who, "a");
    assert_eq!(r.cleanup, Some(2));
    let mut reg = TaskRegistry::new();
    reg.register(r, TaskKind::Concurrent);
    reg.register(TaskRegistration::new("b".to_string()), TaskKind::Blocking);
    reg.register(TaskRegistration::new("c".to_string()).with_cleanup(3u32), TaskKind::Concurrent);
    assert_eq!(reg.cleanups().clone(), vec![2, 3]);
    assert_eq!(reg.tasks().len(), 3);
}
