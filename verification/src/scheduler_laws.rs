//! Proved properties of the round-scheduling state machine.
//!
//! The lemmas here speak about closed executions: the driver performs each
//! returned action on the shared control state and changes nothing else, so
//! the environment is frozen apart from the worker's own writes. That is
//! exactly the setting of the bounded-latency, abort and round-count
//! properties: a stop request, a lost selection, or a fixed category is held
//! in the snapshot while the machine runs.

use vstd::prelude::*;
use crate::classify::CurrentlySelected;
use crate::control::{ControlState, StatusLine, Verdict, can_continue_spec};
use crate::scheduler::{Action, AfterWait, Phase, Scheduler, TICK_MS, UseKind, after_phase, next};

verus! {

/// What performing one action does to the shared control state when nothing
/// else writes it: the run flag and the round counter change exactly through
/// their two actions, every other action leaves the scalars alone.
pub open spec fn apply_action(c: ControlState, a: Action) -> ControlState {
    match a {
        Action::StoreRunning(b) => ControlState { running: b, ..c },
        Action::DecrementRounds => ControlState {
            num_rounds: if c.num_rounds > 0 {
                (c.num_rounds - 1) as usize
            } else {
                0
            },
            ..c
        },
        _ => c,
    }
}

/// `n` decisions of the machine against a driver that performs each action
/// and hands back the resulting control state: the final machine, the final
/// control state, and the trace of actions.
pub open spec fn run(m: Scheduler, c: ControlState, n: nat) -> (Scheduler, ControlState, Seq<
    Action,
>)
    decreases n,
{
    if n == 0 {
        (m, c, Seq::empty())
    } else {
        let prev = run(m, c, (n - 1) as nat);
        let sa = next(prev.0, prev.1);
        (sa.0, apply_action(prev.1, sa.1), prev.2.push(sa.1))
    }
}

/// Runs compose: `a + b` steps are `a` steps followed by `b` steps from
/// where the first run left off, with the traces concatenated.
pub proof fn lemma_run_add(m: Scheduler, c: ControlState, a: nat, b: nat)
    ensures
        ({
            let r1 = run(m, c, a);
            let r2 = run(r1.0, r1.1, b);
            run(m, c, a + b) == (r2.0, r2.1, r1.2 + r2.2)
        }),
    decreases b,
{
    let r1 = run(m, c, a);
    if b == 0 {
        assert(r1.2 + run(r1.0, r1.1, 0).2 =~= r1.2);
    } else {
        lemma_run_add(m, c, a, (b - 1) as nat);
        let rp = run(m, c, (a + b - 1) as nat);
        let r2p = run(r1.0, r1.1, (b - 1) as nat);
        let sa = next(rp.0, rp.1);
        assert(r1.2 + r2p.2.push(sa.1) =~= (r1.2 + r2p.2).push(sa.1));
    }
}

/// How many round decrements a trace contains.
pub open spec fn count_decrements(t: Seq<Action>) -> nat
    decreases t.len(),
{
    if t.len() == 0 {
        0
    } else {
        count_decrements(t.drop_last()) + (if t.last() == Action::DecrementRounds {
            1nat
        } else {
            0nat
        })
    }
}

/// Appending one action adds its own contribution to the decrement count.
pub broadcast proof fn lemma_count_push(t: Seq<Action>, a: Action)
    ensures
        #[trigger] count_decrements(t.push(a)) == count_decrements(t) + (
        if a == Action::DecrementRounds {
            1nat
        } else {
            0nat
        }),
{
    assert(t.push(a).drop_last() =~= t);
}

/// Decrement counts add up over concatenated traces.
pub proof fn lemma_count_concat(t1: Seq<Action>, t2: Seq<Action>)
    ensures
        count_decrements(t1 + t2) == count_decrements(t1) + count_decrements(t2),
    decreases t2.len(),
{
    if t2.len() == 0 {
        assert(t1 + t2 =~= t1);
    } else {
        lemma_count_concat(t1, t2.drop_last());
        assert((t1 + t2).drop_last() =~= t1 + t2.drop_last());
        assert((t1 + t2).last() == t2.last());
    }
}

/// One more step of a run: the machine decides once from where the run left
/// off, the driver performs the action, and the trace grows by that action.
proof fn lemma_step(m: Scheduler, c: ControlState, k: nat)
    ensures
        ({
            let prev = run(m, c, k);
            let sa = next(prev.0, prev.1);
            run(m, c, k + 1) == (sa.0, apply_action(prev.1, sa.1), prev.2.push(sa.1))
        }),
{
}

/// A well-formed machine never waits in chunks above one tick — this is what
/// bounds the latency of every continuation check — and a wait either still
/// has ticks to sleep or has a predicate evaluation pending.
pub open spec fn wf(m: Scheduler) -> bool {
    match m.phase {
        Phase::Waiting { ticks_left, tick_ms, pending, .. } => tick_ms <= TICK_MS && (pending
            || ticks_left >= 1),
        _ => true,
    }
}

/// Every transition preserves well-formedness.
pub proof fn lemma_wf_preserved(m: Scheduler, c: ControlState)
    requires
        wf(m),
    ensures
        wf(next(m, c).0),
{
}

/// Well-formedness survives any run.
pub proof fn lemma_wf_run(m: Scheduler, c: ControlState, n: nat)
    requires
        wf(m),
    ensures
        wf(run(m, c, n).0),
    decreases n,
{
    if n > 0 {
        lemma_wf_run(m, c, (n - 1) as nat);
        let prev = run(m, c, (n - 1) as nat);
        lemma_wf_preserved(prev.0, prev.1);
    }
}

/// A parked worker does nothing at all until it is kicked: every further
/// step leaves it parked and performs no action.
pub proof fn lemma_parked_idle(m: Scheduler, c: ControlState, n: nat)
    requires
        m.phase == Phase::Parked,
    ensures
        run(m, c, n).0 == m,
        run(m, c, n).1 == c,
        forall|i: int| 0 <= i < run(m, c, n).2.len() ==> run(m, c, n).2[i] == Action::Idle,
    decreases n,
{
    if n > 0 {
        lemma_parked_idle(m, c, (n - 1) as nat);
    }
}

/// Bounded stop latency: when the run flag is cleared while the worker sits
/// in an interruptible wait, the worker parks within four decisions, sleeps
/// at most one further tick of at most [`TICK_MS`] milliseconds, and sends no
/// actuation event and takes no focus on the way out; the run flag stays
/// cleared.
pub proof fn lemma_stop_bounded_latency(
    m: Scheduler,
    c: ControlState,
    ticks_left: u128,
    tick_ms: u64,
    pending: bool,
    after: AfterWait,
)
    requires
        wf(m),
        m.phase == (Phase::Waiting { ticks_left, tick_ms, pending, after }),
        !c.running,
    ensures
        ({
            let r = run(m, c, 4);
            &&& r.0.phase == Phase::Parked
            &&& !r.1.running
            &&& r.1.num_rounds == c.num_rounds
            &&& forall|i: int|
                0 <= i < r.2.len() ==> !(r.2[i] is SendKey) && !(r.2[i] is FocusTarget) && !(
                r.2[i] is DecrementRounds)
            &&& forall|i: int| 1 <= i < r.2.len() ==> !(r.2[i] is Wait)
            &&& (r.2[0] is Wait ==> r.2[0] == Action::Wait(tick_ms) && tick_ms <= TICK_MS)
        }),
{
    reveal_with_fuel(run, 5);
    let r1 = run(m, c, 1);
    let r2 = run(m, c, 2);
    let r3 = run(m, c, 3);
    let r4 = run(m, c, 4);
    assert(can_continue_spec(c, m.abort_on_missing_selection) == Verdict::Stopped);
    if pending {
        assert(r1.0.phase == Phase::RoundCheck && r1.1 == c);
        assert(r2.0.phase == Phase::SessionEnd && r2.1 == c);
        assert(r3.0.phase == Phase::Parked && !r3.1.running);
        assert(r4.0.phase == Phase::Parked && !r4.1.running);
        assert(r4.2 =~= seq![
            Action::Idle,
            Action::Idle,
            Action::StoreRunning(false),
            Action::Idle,
        ]);
    } else {
        assert(r1.0.phase == (Phase::Waiting {
            ticks_left: (ticks_left - 1) as u128,
            tick_ms,
            pending: true,
            after,
        }) && r1.1 == c);
        assert(r2.0.phase == Phase::RoundCheck && r2.1 == c);
        assert(r3.0.phase == Phase::SessionEnd && r3.1 == c);
        assert(r4.0.phase == Phase::Parked && !r4.1.running);
        assert(r4.2 =~= seq![
            Action::Wait(tick_ms),
            Action::Idle,
            Action::Idle,
            Action::StoreRunning(false),
        ]);
    }
}

/// Abort on missing selection: when the selection category becomes `Nothing`
/// while the abort flag is set during a maintenance wait, the session stops
/// before another round starts: the worker parks within five decisions, the
/// round counter is never decremented, and the run flag ends cleared.
pub proof fn lemma_abort_on_missing_selection(
    m: Scheduler,
    c: ControlState,
    ticks_left: u128,
    tick_ms: u64,
    pending: bool,
    after: AfterWait,
)
    requires
        wf(m),
        m.phase == (Phase::Waiting { ticks_left, tick_ms, pending, after }),
        m.abort_on_missing_selection,
        c.running,
        c.num_rounds > 0,
        c.cur_selected == CurrentlySelected::Nothing,
    ensures
        ({
            let r = run(m, c, 5);
            &&& r.0.phase == Phase::Parked
            &&& !r.1.running
            &&& r.1.num_rounds == c.num_rounds
            &&& forall|i: int|
                0 <= i < r.2.len() ==> !(r.2[i] is DecrementRounds) && !(r.2[i] is SendKey)
        }),
{
    reveal_with_fuel(run, 6);
    let r1 = run(m, c, 1);
    let r2 = run(m, c, 2);
    let r3 = run(m, c, 3);
    let r4 = run(m, c, 4);
    let r5 = run(m, c, 5);
    assert(can_continue_spec(c, m.abort_on_missing_selection) == Verdict::SelectionLost);
    if pending {
        assert(r1.0.phase == Phase::RoundCheck && r1.1 == c);
        assert(r2.0.phase == Phase::SessionEnd && r2.1 == c);
        assert(r3.0.phase == Phase::Parked && !r3.1.running && r3.1.num_rounds == c.num_rounds);
        assert(r4.0.phase == Phase::Parked && r4.1 == r3.1);
        assert(r5.0.phase == Phase::Parked && r5.1 == r3.1);
        assert(forall|i: int|
            0 <= i < r5.2.len() ==> !(r5.2[i] is DecrementRounds) && !(r5.2[i] is SendKey));
    } else {
        assert(r1.0.phase == (Phase::Waiting {
            ticks_left: (ticks_left - 1) as u128,
            tick_ms,
            pending: true,
            after,
        }) && r1.1 == c);
        assert(r2.0.phase == Phase::RoundCheck && r2.1 == c);
        assert(r3.0.phase == Phase::SessionEnd && r3.1 == c);
        assert(r4.0.phase == Phase::Parked && !r4.1.running && r4.1.num_rounds == c.num_rounds);
        assert(r5.0.phase == Phase::Parked && r5.1 == r4.1);
        assert(forall|i: int|
            0 <= i < r5.2.len() ==> !(r5.2[i] is DecrementRounds) && !(r5.2[i] is SendKey));
    }
}

/// A control state in which sessions harvest: one object per round, no extra
/// delay, and the category pinned at ripe.
pub open spec fn harvest_config(c: ControlState) -> bool {
    c.running && c.num_objects == 1 && c.extra_delay_secs == 0 && c.cur_selected
        == CurrentlySelected::Ripe
}

/// From the head of the session loop under a harvest configuration, the
/// thirteenth decision is the round decrement: the harvest use sequence runs
/// first, no other decrement happens, and the machine stands between the
/// decrement and the replant with the abort flag clear.
#[verifier::rlimit(100)]
proof fn lemma_harvest_prelude(m: Scheduler, c: ControlState)
    requires
        m.phase == Phase::RoundCheck,
        harvest_config(c),
        c.num_rounds >= 1,
    ensures
        ({
            let r = run(m, c, 13);
            &&& r.0 == (Scheduler {
                phase: Phase::HarvestRecheck,
                abort_on_missing_selection: false,
            })
            &&& r.1 == (ControlState { num_rounds: (c.num_rounds - 1) as usize, ..c })
            &&& r.2.len() == 13
            &&& r.2[12] == Action::DecrementRounds
            &&& count_decrements(r.2) == 1
        }),
{
    broadcast use lemma_count_push;

    let k = UseKind::Harvest;
    assert(run(m, c, 0) == (m, c, Seq::<Action>::empty()));
    lemma_step(m, c, 0);
    lemma_step(m, c, 1);
    lemma_step(m, c, 2);
    lemma_step(m, c, 3);
    lemma_step(m, c, 4);
    lemma_step(m, c, 5);
    lemma_step(m, c, 6);
    lemma_step(m, c, 7);
    lemma_step(m, c, 8);
    lemma_step(m, c, 9);
    lemma_step(m, c, 10);
    lemma_step(m, c, 11);
    lemma_step(m, c, 12);
    let r1 = run(m, c, 1);
    assert(r1.0 == (Scheduler {
        phase: Phase::StartUse { kind: k },
        abort_on_missing_selection: false,
    }) && r1.1 == c);
    let r2 = run(m, c, 2);
    assert(r2.0.phase == (Phase::UseStep { kind: k, left: 1 }) && r2.1 == c);
    let r3 = run(m, c, 3);
    assert(r3.0.phase == (Phase::Waiting {
        ticks_left: 1,
        tick_ms: TICK_MS,
        pending: false,
        after: AfterWait::UseSecondKey { kind: k, left: 1 },
    }) && r3.1 == c);
    let r4 = run(m, c, 4);
    assert(r4.0.phase == (Phase::Waiting {
        ticks_left: 0,
        tick_ms: TICK_MS,
        pending: true,
        after: AfterWait::UseSecondKey { kind: k, left: 1 },
    }) && r4.1 == c);
    let r5 = run(m, c, 5);
    assert(r5.0.phase == (Phase::UseSecond { kind: k, left: 1 }) && r5.1 == c);
    let r6 = run(m, c, 6);
    assert(r6.0.phase == (Phase::Waiting {
        ticks_left: 1,
        tick_ms: TICK_MS,
        pending: false,
        after: AfterWait::UseThirdKey { kind: k, left: 1 },
    }) && r6.1 == c);
    let r7 = run(m, c, 7);
    assert(r7.0.phase == (Phase::Waiting {
        ticks_left: 0,
        tick_ms: TICK_MS,
        pending: true,
        after: AfterWait::UseThirdKey { kind: k, left: 1 },
    }) && r7.1 == c);
    let r8 = run(m, c, 8);
    assert(r8.0.phase == (Phase::UseThird { kind: k, left: 1 }) && r8.1 == c);
    let r9 = run(m, c, 9);
    assert(r9.0.phase == (Phase::Waiting {
        ticks_left: 1,
        tick_ms: TICK_MS,
        pending: false,
        after: AfterWait::UseStepDone { kind: k, left: 1 },
    }) && r9.1 == c);
    let r10 = run(m, c, 10);
    assert(r10.0.phase == (Phase::Waiting {
        ticks_left: 0,
        tick_ms: TICK_MS,
        pending: true,
        after: AfterWait::UseStepDone { kind: k, left: 1 },
    }) && r10.1 == c);
    let r11 = run(m, c, 11);
    assert(r11.0.phase == (Phase::UseStep { kind: k, left: 0 }) && r11.1 == c);
    let r12 = run(m, c, 12);
    assert(r12.0.phase == Phase::HarvestDecrement && r12.1 == c);
    let r13 = run(m, c, 13);
    assert(r13.0 == (Scheduler {
        phase: Phase::HarvestRecheck,
        abort_on_missing_selection: false,
    }));
    assert(r13.1 == (ControlState { num_rounds: (c.num_rounds - 1) as usize, ..c }));
    assert(count_decrements(r13.2) == 1);
}

/// The final round of a harvest session: from the head of the session loop
/// with one round left, the worker harvests, makes the one decrement,
/// announces the finish, clears the run flag and parks — and after the final
/// decrement no key is sent and no focus is taken, so no replant follows it.
pub proof fn lemma_final_round(m: Scheduler, c: ControlState)
    requires
        m.phase == Phase::RoundCheck,
        harvest_config(c),
        c.num_rounds == 1,
    ensures
        ({
            let r = run(m, c, 16);
            &&& r.0 == (Scheduler { phase: Phase::Parked, abort_on_missing_selection: false })
            &&& r.1 == (ControlState { running: false, num_rounds: 0, ..c })
            &&& r.2.len() == 16
            &&& r.2[12] == Action::DecrementRounds
            &&& count_decrements(r.2) == 1
            &&& forall|i: int| 12 < i < 16 ==> !(r.2[i] is SendKey) && !(r.2[i] is FocusTarget)
        }),
{
    broadcast use lemma_count_push;

    lemma_harvest_prelude(m, c);
    lemma_run_add(m, c, 13, 3);
    let r13 = run(m, c, 13);
    let tail = run(r13.0, r13.1, 3);
    assert(run(r13.0, r13.1, 0) == (r13.0, r13.1, Seq::<Action>::empty()));
    lemma_step(r13.0, r13.1, 0);
    lemma_step(r13.0, r13.1, 1);
    lemma_step(r13.0, r13.1, 2);
    assert(can_continue_spec(r13.1, false) == Verdict::Finished);
    let s1 = run(r13.0, r13.1, 1);
    assert(s1.0.phase == Phase::RoundCheck && s1.1 == r13.1);
    let s2 = run(r13.0, r13.1, 2);
    assert(s2.0.phase == Phase::SessionEnd && s2.1 == r13.1);
    assert(tail.0.phase == Phase::Parked && !tail.1.running);
    assert(tail.2 =~= seq![
        Action::SetStatus(Some(StatusLine::Finished), Some(StatusLine::Empty)),
        Action::SetStatus(Some(StatusLine::Finished), Some(StatusLine::Empty)),
        Action::StoreRunning(false),
    ]);
    assert(count_decrements(tail.2) == 0);
    lemma_count_concat(r13.2, tail.2);
    let r = run(m, c, 16);
    assert(r.0 == tail.0 && r.1 == tail.1);
    assert(r.0 == (Scheduler { phase: Phase::Parked, abort_on_missing_selection: false }));
    assert(r.1 == (ControlState { running: false, num_rounds: 0, ..c }));
    assert(r.2 == r13.2 + tail.2);
    assert(r.2.len() == 16);
    assert(r.2[12] == r13.2[12]);
    assert(forall|i: int| 12 < i < 16 ==> r.2[i] == tail.2[i - 13]);
}

/// The replant sequence from any slot press onward: with the abort flag
/// clear and a session still owed rounds, the remaining presses, the closing
/// advance key and the focus restore run to completion and hand control back
/// to the head of the session loop, with the control state untouched.
proof fn lemma_replant_presses(m: Scheduler, c: ControlState, slot: u8, press: u8)
    requires
        m.phase == (Phase::ReplantPress { slot, press }),
        !m.abort_on_missing_selection,
        slot <= 4,
        press <= 2,
        c.running,
        c.num_rounds >= 1,
    ensures
        ({
            let n = (4 * ((4 - slot) * 3 + (2 - press) + 1) + 6) as nat;
            let r = run(m, c, n);
            &&& r.0 == (Scheduler { phase: Phase::RoundCheck, abort_on_missing_selection: false })
            &&& r.1 == c
            &&& r.2.len() == n
            &&& count_decrements(r.2) == 0
        }),
    decreases (4 - slot) * 3 + (2 - press),
{
    broadcast use lemma_count_push;

    let pd = AfterWait::ReplantPressDone { slot, press };
    let n = (4 * ((4 - slot) * 3 + (2 - press) + 1) + 6) as nat;
    assert(run(m, c, 0) == (m, c, Seq::<Action>::empty()));
    lemma_step(m, c, 0);
    lemma_step(m, c, 1);
    lemma_step(m, c, 2);
    lemma_step(m, c, 3);
    assert(can_continue_spec(c, false) == Verdict::Go);
    let r1 = run(m, c, 1);
    assert(r1.0.phase == (Phase::Waiting {
        ticks_left: 2,
        tick_ms: TICK_MS,
        pending: false,
        after: pd,
    }) && r1.1 == c);
    let r2 = run(m, c, 2);
    assert(r2.0.phase == (Phase::Waiting {
        ticks_left: 1,
        tick_ms: TICK_MS,
        pending: true,
        after: pd,
    }) && r2.1 == c);
    let r3 = run(m, c, 3);
    assert(r3.0.phase == (Phase::Waiting {
        ticks_left: 0,
        tick_ms: TICK_MS,
        pending: true,
        after: pd,
    }) && r3.1 == c);
    let r4 = run(m, c, 4);
    assert(r4.0 == (Scheduler {
        phase: after_phase(pd),
        abort_on_missing_selection: false,
    }) && r4.1 == c);
    assert(r4.2.len() == 4 && count_decrements(r4.2) == 0);
    if press < 2 {
        assert(after_phase(pd) == (Phase::ReplantPress { slot, press: (press + 1) as u8 }));
        lemma_replant_presses(r4.0, c, slot, (press + 1) as u8);
        let sub_n = (4 * ((4 - slot) * 3 + (2 - (press + 1)) + 1) + 6) as nat;
        lemma_run_add(m, c, 4, sub_n);
        let sub = run(r4.0, r4.1, sub_n);
        lemma_count_concat(r4.2, sub.2);
        assert(4 + sub_n == n);
    } else if slot < 4 {
        assert(after_phase(pd) == (Phase::ReplantPress { slot: (slot + 1) as u8, press: 0 }));
        lemma_replant_presses(r4.0, c, (slot + 1) as u8, 0);
        let sub_n = (4 * ((4 - (slot + 1)) * 3 + 2 + 1) + 6) as nat;
        lemma_run_add(m, c, 4, sub_n);
        let sub = run(r4.0, r4.1, sub_n);
        lemma_count_concat(r4.2, sub.2);
        assert(4 + sub_n == n);
    } else {
        assert(after_phase(pd) == (Phase::Waiting {
            ticks_left: 1,
            tick_ms: TICK_MS,
            pending: false,
            after: AfterWait::ReplantGapDone,
        }));
        lemma_step(m, c, 4);
        lemma_step(m, c, 5);
        lemma_step(m, c, 6);
        lemma_step(m, c, 7);
        lemma_step(m, c, 8);
        lemma_step(m, c, 9);
        let r5 = run(m, c, 5);
        assert(r5.0.phase == (Phase::Waiting {
            ticks_left: 0,
            tick_ms: TICK_MS,
            pending: true,
            after: AfterWait::ReplantGapDone,
        }) && r5.1 == c);
        let r6 = run(m, c, 6);
        assert(r6.0.phase == Phase::ReplantAdvance && r6.1 == c);
        let r7 = run(m, c, 7);
        assert(r7.0.phase == (Phase::Waiting {
            ticks_left: 1,
            tick_ms: TICK_MS,
            pending: false,
            after: AfterWait::ReplantTailDone,
        }) && r7.1 == c);
        let r8 = run(m, c, 8);
        assert(r8.0.phase == (Phase::Waiting {
            ticks_left: 0,
            tick_ms: TICK_MS,
            pending: true,
            after: AfterWait::ReplantTailDone,
        }) && r8.1 == c);
        let r9 = run(m, c, 9);
        assert(r9.0.phase == Phase::ReplantRestore && r9.1 == c);
        let r10 = run(m, c, 10);
        assert(r10.0 == (Scheduler {
            phase: Phase::RoundCheck,
            abort_on_missing_selection: false,
        }) && r10.1 == c);
        assert(n == 10);
        assert(r10.2.len() == 10 && count_decrements(r10.2) == 0);
    }
}

/// One full harvest round that is not the last: the worker harvests the one
/// object, decrements the round counter by exactly one, replants all five
/// slots, and returns to the head of the session loop still running.
proof fn lemma_middle_round(m: Scheduler, c: ControlState)
    requires
        m.phase == Phase::RoundCheck,
        harvest_config(c),
        c.num_rounds >= 2,
    ensures
        ({
            let r = run(m, c, 81);
            &&& r.0 == (Scheduler { phase: Phase::RoundCheck, abort_on_missing_selection: false })
            &&& r.1 == (ControlState { num_rounds: (c.num_rounds - 1) as usize, ..c })
            &&& r.2.len() == 81
            &&& count_decrements(r.2) == 1
        }),
{
    broadcast use lemma_count_push;

    lemma_harvest_prelude(m, c);
    let r13 = run(m, c, 13);
    assert(run(r13.0, r13.1, 0) == (r13.0, r13.1, Seq::<Action>::empty()));
    lemma_step(r13.0, r13.1, 0);
    lemma_step(r13.0, r13.1, 1);
    assert(can_continue_spec(r13.1, false) == Verdict::Go);
    let s1 = run(r13.0, r13.1, 1);
    assert(s1.0.phase == Phase::FocusForReplant && s1.1 == r13.1);
    let s2 = run(r13.0, r13.1, 2);
    assert(s2.0 == (Scheduler {
        phase: Phase::ReplantPress { slot: 0, press: 0 },
        abort_on_missing_selection: false,
    }) && s2.1 == r13.1);
    assert(s2.2.len() == 2 && count_decrements(s2.2) == 0);
    lemma_replant_presses(s2.0, s2.1, 0, 0);
    let rp = run(s2.0, s2.1, 66);
    lemma_run_add(r13.0, r13.1, 2, 66);
    let t68 = run(r13.0, r13.1, 68);
    lemma_count_concat(s2.2, rp.2);
    lemma_run_add(m, c, 13, 68);
    lemma_count_concat(r13.2, t68.2);
    assert(run(m, c, 81).1 == (ControlState { num_rounds: (c.num_rounds - 1) as usize, ..c }));
}

/// The round-count law for harvest sessions: with `N > 0` rounds remaining,
/// the category pinned at ripe and one object per round, the worker performs
/// exactly `N` harvest-decrement cycles and then parks with the run flag
/// cleared and the counter at 0 — and after the final decrement it sends no
/// key and takes no focus, so no replant follows the final round.
pub proof fn lemma_harvest_session(m: Scheduler, c: ControlState)
    requires
        m.phase == Phase::RoundCheck,
        harvest_config(c),
        c.num_rounds >= 1,
    ensures
        ({
            let n = (81 * (c.num_rounds - 1) + 16) as nat;
            let r = run(m, c, n);
            &&& r.0 == (Scheduler { phase: Phase::Parked, abort_on_missing_selection: false })
            &&& r.1 == (ControlState { running: false, num_rounds: 0, ..c })
            &&& r.2.len() == n
            &&& count_decrements(r.2) == c.num_rounds
            &&& r.2[n - 4] == Action::DecrementRounds
            &&& forall|i: int| n - 4 < i < n ==> !(r.2[i] is SendKey) && !(r.2[i] is FocusTarget)
        }),
    decreases c.num_rounds,
{
    let n = (81 * (c.num_rounds - 1) + 16) as nat;
    if c.num_rounds == 1 {
        lemma_final_round(m, c);
    } else {
        lemma_middle_round(m, c);
        let r81 = run(m, c, 81);
        lemma_harvest_session(r81.0, r81.1);
        let n2 = (81 * (r81.1.num_rounds - 1) + 16) as nat;
        let sub = run(r81.0, r81.1, n2);
        lemma_run_add(m, c, 81, n2);
        lemma_count_concat(r81.2, sub.2);
        let r = run(m, c, n);
        assert(n == 81 + n2);
        assert(r.2 == r81.2 + sub.2);
        assert(r.2[n - 4] == sub.2[n2 - 4]);
        assert(forall|i: int| n - 4 < i < n ==> r.2[i] == sub.2[i - 81]);
    }
}

} // verus!
