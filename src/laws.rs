use vstd::prelude::*;

use crate::status::AbortOutcome;
use crate::wait::{initial, model_wf, race_outcome, step, WaitAction, WaitEvent, WaitModel};

verus! {

/// Runs the terminal wait from `s` over the events `evs`, in order: the final
/// state and the action taken at each event.
pub open spec fn run(s: WaitModel, evs: Seq<WaitEvent>) -> (WaitModel, Seq<WaitAction>)
    decreases evs.len(),
{
    if evs.len() == 0 {
        (s, Seq::empty())
    } else {
        let (s1, acts) = run(s, evs.drop_last());
        let (s2, a) = step(s1, evs.last());
        (s2, acts.push(a))
    }
}

/// The indices of the cleanup actions started, in the order they were asked for.
pub open spec fn cleanups_started(acts: Seq<WaitAction>) -> Seq<nat>
    decreases acts.len(),
{
    if acts.len() == 0 {
        Seq::empty()
    } else {
        let prev = cleanups_started(acts.drop_last());
        match acts.last() {
            WaitAction::RunCleanup(i) => prev.push(i as nat),
            _ => prev,
        }
    }
}

/// The outcomes returned, in order.
pub open spec fn outcomes_returned(acts: Seq<WaitAction>) -> Seq<AbortOutcome>
    decreases acts.len(),
{
    if acts.len() == 0 {
        Seq::empty()
    } else {
        let prev = outcomes_returned(acts.drop_last());
        match acts.last() {
            WaitAction::Return(o) => prev.push(o),
            _ => prev,
        }
    }
}

/// How many of the events report a finished cleanup action.
pub open spec fn cleanups_done(evs: Seq<WaitEvent>) -> nat
    decreases evs.len(),
{
    if evs.len() == 0 {
        0
    } else {
        cleanups_done(evs.drop_last()) + if evs.last() is CleanupDone {
            1nat
        } else {
            0nat
        }
    }
}

/// The indices `0, 1, ..., n - 1`.
pub open spec fn upto(n: nat) -> Seq<nat> {
    Seq::new(n, |i: int| i as nat)
}

/// How many cleanup actions have been asked for in state `s`.
pub open spec fn started(s: WaitModel) -> nat {
    match s.outcome {
        None => 0,
        Some(_) => if s.next < s.total {
            s.next + 1
        } else {
            s.total
        },
    }
}

proof fn lemma_run_invariant(total: nat, evs: Seq<WaitEvent>)
    requires
        total <= usize::MAX,
    ensures
        ({
            let (s, acts) = run(initial(total), evs);
            &&& model_wf(s)
            &&& s.total == total
            &&& s.next <= cleanups_done(evs)
            &&& cleanups_started(acts) == upto(started(s))
            &&& outcomes_returned(acts) == if s.outcome is Some && s.next == total {
                seq![s.outcome->0]
            } else {
                Seq::<AbortOutcome>::empty()
            }
        }),
    decreases evs.len(),
{
    if evs.len() == 0 {
        assert(upto(0) =~= Seq::<nat>::empty());
    } else {
        lemma_run_invariant(total, evs.drop_last());
        let (s1, acts1) = run(initial(total), evs.drop_last());
        let (s2, a) = step(s1, evs.last());
        let acts = acts1.push(a);
        assert(acts.drop_last() =~= acts1);
        assert(run(initial(total), evs) == (s2, acts));
        assert(upto(started(s1)).push(started(s1)) =~= upto(started(s1) + 1));
        match s1.outcome {
            None => {
                if race_outcome(evs.last()) is Some {
                    assert(s2.next == 0);
                    if total > 0 {
                        assert(a == WaitAction::RunCleanup(0));
                        assert(started(s2) == 1);
                    } else {
                        assert(upto(0) =~= Seq::<nat>::empty());
                    }
                }
            },
            Some(o) => {
                if s1.next < s1.total && evs.last() is CleanupDone {
                    assert(s2.next == s1.next + 1);
                } else {
                    assert(s2 == s1);
                }
            },
        }
    }
}

/// Whatever events arrive, the cleanup actions are asked for in registration
/// order, each at most once and none before the race is decided; the outcome
/// is returned at most once, only after every cleanup action was asked for
/// and reported done, and it is the outcome the race decided.
pub proof fn lemma_cleanups_in_registration_order(total: nat, evs: Seq<WaitEvent>)
    requires
        total <= usize::MAX,
    ensures
        ({
            let (s, acts) = run(initial(total), evs);
            &&& cleanups_started(acts) == upto(cleanups_started(acts).len())
            &&& cleanups_started(acts).len() <= total
            &&& s.outcome is None ==> cleanups_started(acts).len() == 0
            &&& outcomes_returned(acts).len() <= 1
            &&& outcomes_returned(acts).len() == 1 ==> {
                &&& cleanups_started(acts) == upto(total)
                &&& cleanups_done(evs) >= total
                &&& s.outcome == Some(outcomes_returned(acts)[0])
            }
        }),
{
    lemma_run_invariant(total, evs);
}

/// A cleanup action that never reports done keeps the wait from returning:
/// with at least one cleanup action and no finished one, nothing is returned.
pub proof fn lemma_hanging_cleanup_blocks_return(total: nat, evs: Seq<WaitEvent>)
    requires
        0 < total <= usize::MAX,
        cleanups_done(evs) == 0,
    ensures
        outcomes_returned(run(initial(total), evs).1).len() == 0,
{
    lemma_run_invariant(total, evs);
}

} // verus!

verus! {

proof fn lemma_undecided(total: nat, evs: Seq<WaitEvent>)
    requires
        forall|i: int| 0 <= i < evs.len() ==> race_outcome(#[trigger] evs[i]) is None,
    ensures
        run(initial(total), evs).0 == initial(total),
    decreases evs.len(),
{
    if evs.len() > 0 {
        let pre = evs.drop_last();
        assert forall|i: int| 0 <= i < pre.len() implies race_outcome(#[trigger] pre[i]) is None by {
            assert(pre[i] == evs[i]);
        }
        lemma_undecided(total, pre);
        assert(race_outcome(evs[evs.len() - 1]) is None);
    }
}

/// The first race event decides the outcome, whatever comes after it: a
/// shutdown request gives the operator-shutdown outcome, a notification
/// gives a task exit naming that task, and a closed channel a task exit
/// naming none. Race events after the first change nothing.
pub proof fn lemma_first_race_event_decides(total: nat, evs: Seq<WaitEvent>, k: int)
    requires
        0 <= k < evs.len(),
        race_outcome(evs[k]) is Some,
        forall|i: int| 0 <= i < k ==> race_outcome(#[trigger] evs[i]) is None,
    ensures
        run(initial(total), evs).0.outcome == race_outcome(evs[k]),
    decreases evs.len(),
{
    let pre = evs.drop_last();
    if k == evs.len() - 1 {
        assert forall|i: int| 0 <= i < pre.len() implies race_outcome(#[trigger] pre[i]) is None by {
            assert(pre[i] == evs[i]);
        }
        lemma_undecided(total, pre);
    } else {
        assert(pre[k] == evs[k]);
        assert forall|i: int| 0 <= i < k implies race_outcome(#[trigger] pre[i]) is None by {
            assert(pre[i] == evs[i]);
        }
        lemma_first_race_event_decides(total, pre, k);
    }
}

/// A race event followed by `m` reports of a finished cleanup action.
pub open spec fn decided_then_done(e: WaitEvent, m: nat) -> Seq<WaitEvent> {
    seq![e] + Seq::new(m, |i: int| WaitEvent::CleanupDone)
}

proof fn lemma_progress(total: nat, e: WaitEvent, m: nat)
    requires
        total <= usize::MAX,
        m <= total,
        race_outcome(e) is Some,
    ensures
        run(initial(total), decided_then_done(e, m)).0 == (WaitModel {
            outcome: race_outcome(e),
            next: m,
            total,
        }),
    decreases m,
{
    let evs = decided_then_done(e, m);
    assert(evs.len() == m + 1);
    if m == 0 {
        assert(evs.drop_last() =~= Seq::<WaitEvent>::empty());
        assert(evs.last() == e);
        assert(run(initial(total), evs.drop_last()).0 == initial(total));
    } else {
        assert(evs.drop_last() =~= decided_then_done(e, (m - 1) as nat));
        assert(evs.last() == WaitEvent::CleanupDone);
        lemma_progress(total, e, (m - 1) as nat);
    }
}

/// With `total` cleanup actions, a race event followed by `total` reports of
/// a finished cleanup action makes the wait ask for every cleanup action
/// exactly once, in registration order, and then return, once, the outcome
/// that the race event decided; this holds whichever race event came first.
pub proof fn lemma_all_cleanups_run_then_return(total: nat, e: WaitEvent)
    requires
        total <= usize::MAX,
        race_outcome(e) is Some,
    ensures
        ({
            let (s, acts) = run(initial(total), decided_then_done(e, total));
            &&& cleanups_started(acts) == upto(total)
            &&& outcomes_returned(acts) == seq![race_outcome(e)->0]
            &&& acts.last() == WaitAction::Return(race_outcome(e)->0)
        }),
{
    let evs = decided_then_done(e, total);
    lemma_progress(total, e, total);
    lemma_run_invariant(total, evs);
    let (s, acts) = run(initial(total), evs);
    assert(evs.len() == total + 1);
    if total == 0 {
        assert(evs.drop_last() =~= Seq::<WaitEvent>::empty());
        assert(evs.last() == e);
        assert(run(initial(total), evs.drop_last()).0 == initial(total));
    } else {
        assert(evs.drop_last() =~= decided_then_done(e, (total - 1) as nat));
        assert(evs.last() == WaitEvent::CleanupDone);
        lemma_progress(total, e, (total - 1) as nat);
    }
    assert(upto(started(s)) == upto(total));
}

} // verus!
