//! The round-scheduling worker state machine.
//!
//! The worker owns one background thread that alternates outside work
//! (sleeping, sending actuation events, resolving the target) with decisions.
//! All decisions live here, as a small-step machine: the driver performs the
//! returned [`Action`], reads a fresh [`ControlState`] snapshot, and calls
//! [`Scheduler::step`] again. Because every wait is split into ticks of at
//! most [`TICK_MS`] milliseconds and the continuation predicate is evaluated
//! on a fresh snapshot after every tick, a stop request is observed within
//! one tick interval no matter how long an individual wait is.

use vstd::prelude::*;
use crate::classify::CurrentlySelected;
use crate::control::{ControlState, StatusLine, Verdict, can_continue, can_continue_spec};

verus! {

/// The polling granularity of interruptible waits, in milliseconds.
pub const TICK_MS: u64 = 100;

/// Actuation code of the "use" key event.
pub const KEY_USE: u16 = 0x55;

/// Actuation code of the "advance" key event.
pub const KEY_ADVANCE: u16 = 0x59;

/// Actuation code of the first slot-select key event; the five replant slots
/// are consecutive codes starting here.
pub const KEY_SLOT_BASE: u16 = 0x31;

/// Which action sequence the current "use" steps belong to. Watering and
/// feeding are maintenance actions that consume no round; harvesting leads
/// into the round decrement and the replant sequence.
#[derive(Clone, Copy, Debug, PartialEq, Eq, Structural)]
pub enum UseKind {
    Water,
    Feed,
    Harvest,
}

/// Where control resumes after an interruptible wait runs to completion.
#[derive(Clone, Copy, Debug, PartialEq, Eq, Structural)]
pub enum AfterWait {
    /// The long idle wait ended: check the round predicate again.
    IdleDone,
    /// The extra per-round delay ended: clear its status line, then focus.
    ExtraDone { kind: UseKind },
    /// The pause after the first use key ended: send the second use key.
    UseSecondKey { kind: UseKind, left: usize },
    /// The pause after the second use key ended: send the advance key.
    UseThirdKey { kind: UseKind, left: usize },
    /// The pause after the advance key ended: one object is done.
    UseStepDone { kind: UseKind, left: usize },
    /// The pause after one slot-select press ended.
    ReplantPressDone { slot: u8, press: u8 },
    /// The pause between the slot presses and the advance key ended.
    ReplantGapDone,
    /// The pause after the replant advance key ended: restore focus.
    ReplantTailDone,
}

/// The worker's program counter.
#[derive(Clone, Copy, Debug, PartialEq, Eq, Structural)]
pub enum Phase {
    /// Blocked waiting for a kick.
    Parked,
    /// A kick arrived; the driver is looking up the target.
    Resolving,
    /// Head of the session loop: evaluate the continuation predicate and
    /// branch on the current category.
    RoundCheck,
    /// A use sequence starts: apply the extra delay if one is configured.
    StartUse { kind: UseKind },
    /// The extra delay is over: clear its status line.
    ClearExtraStatus { kind: UseKind },
    /// Bring the target to the foreground for the use sequence.
    FocusForUse { kind: UseKind },
    /// Per-object loop of the use sequence: `left` objects remain.
    UseStep { kind: UseKind, left: usize },
    /// Send the second use key for the current object.
    UseSecond { kind: UseKind, left: usize },
    /// Send the advance key for the current object.
    UseThird { kind: UseKind, left: usize },
    /// A harvest completed: decrement the remaining-round counter.
    HarvestDecrement,
    /// Re-evaluate the predicate between the decrement and the replant.
    HarvestRecheck,
    /// Bring the target to the foreground for the replant sequence.
    FocusForReplant,
    /// Send one slot-select press: slot 0..5, press 0..3 within the slot.
    ReplantPress { slot: u8, press: u8 },
    /// Send the advance key that closes the replant sequence.
    ReplantAdvance,
    /// Give focus back and return to the head of the session loop.
    ReplantRestore,
    /// Inside an interruptible wait. `ticks_left` ticks of `tick_ms` each are
    /// still to sleep; `pending` means a tick was slept and the continuation
    /// predicate must be evaluated before anything else happens.
    Waiting { ticks_left: u128, tick_ms: u64, pending: bool, after: AfterWait },
    /// The session loop exited: clear the run flag and park.
    SessionEnd,
}

/// What the driver is asked to do between two steps. Exactly one action is
/// returned per step.
#[derive(Clone, Copy, Debug, PartialEq, Eq, Structural)]
pub enum Action {
    /// Nothing: call `step` again with a fresh snapshot.
    Idle,
    /// Look up the target and report the outcome through `on_resolved`.
    Resolve,
    /// Surface the resolve failure to the user once.
    ReportError,
    /// Store the given value into the shared run flag.
    StoreRunning(bool),
    /// Decrement the shared remaining-round counter by exactly one.
    DecrementRounds,
    /// Publish status text: each given line replaces the shared one.
    SetStatus(Option<StatusLine>, Option<StatusLine>),
    /// Send one key actuation event to the target.
    SendKey(u16),
    /// Bring the target to the foreground, remembering the previous focus.
    FocusTarget,
    /// Give focus back to the previously focused window.
    RestoreFocus,
    /// Sleep the given number of milliseconds, at most one tick.
    Wait(u64),
    /// The remaining-round counter was 0 at a decrement: a fatal defect.
    Defect,
}

/// The worker state machine: the program counter and the per-session
/// abort-on-missing-selection flag, which guards against losing the round
/// target mid-maintenance-action.
#[derive(Clone, Copy, Debug, PartialEq, Eq, Structural)]
pub struct Scheduler {
    pub phase: Phase,
    pub abort_on_missing_selection: bool,
}

/// The wait state that an interruptible wait of `ms` milliseconds starts in:
/// below one tick, a single chunk of the full duration; otherwise whole
/// ticks, one predicate evaluation after each, the remainder dropped.
pub open spec fn wait_phase(ms: u128, after: AfterWait) -> Phase {
    if ms < TICK_MS as u128 {
        Phase::Waiting { ticks_left: 1, tick_ms: ms as u64, pending: false, after }
    } else {
        Phase::Waiting { ticks_left: ms / (TICK_MS as u128), tick_ms: TICK_MS, pending: false, after }
    }
}

/// The phase that follows a completed interruptible wait.
pub open spec fn after_phase(a: AfterWait) -> Phase {
    match a {
        AfterWait::IdleDone => Phase::RoundCheck,
        AfterWait::ExtraDone { kind } => Phase::ClearExtraStatus { kind },
        AfterWait::UseSecondKey { kind, left } => Phase::UseSecond { kind, left },
        AfterWait::UseThirdKey { kind, left } => Phase::UseThird { kind, left },
        AfterWait::UseStepDone { kind, left } => Phase::UseStep {
            kind,
            left: if left > 0 {
                (left - 1) as usize
            } else {
                0
            },
        },
        AfterWait::ReplantPressDone { slot, press } => if press < 2 {
            Phase::ReplantPress { slot, press: (press + 1) as u8 }
        } else if slot < 4 {
            Phase::ReplantPress { slot: (slot + 1) as u8, press: 0 }
        } else {
            wait_phase(150, AfterWait::ReplantGapDone)
        },
        AfterWait::ReplantGapDone => Phase::ReplantAdvance,
        AfterWait::ReplantTailDone => Phase::ReplantRestore,
    }
}

/// The status text a failing verdict publishes, exactly as the continuation
/// check publishes it: finishing announces itself on the first line, a lost
/// selection on the second, and an external stop says nothing.
pub open spec fn verdict_action(v: Verdict) -> Action {
    match v {
        Verdict::Go => Action::Idle,
        Verdict::Stopped => Action::Idle,
        Verdict::Finished => Action::SetStatus(Some(StatusLine::Finished), Some(StatusLine::Empty)),
        Verdict::SelectionLost => Action::SetStatus(
            Some(StatusLine::Empty),
            Some(StatusLine::SelectionLost),
        ),
    }
}

/// One decision of the worker: from the machine state and a fresh snapshot
/// of the shared control state to the successor state and the one action the
/// driver must perform before the next decision.
pub open spec fn next(m: Scheduler, c: ControlState) -> (Scheduler, Action) {
    match m.phase {
        Phase::Parked => (m, Action::Idle),
        Phase::Resolving => (m, Action::Idle),
        Phase::RoundCheck => {
            let v = can_continue_spec(c, m.abort_on_missing_selection);
            if v != Verdict::Go {
                (Scheduler { phase: Phase::SessionEnd, ..m }, verdict_action(v))
            } else if c.num_objects == 0 {
                (m, Action::Idle)
            } else {
                match c.cur_selected {
                    CurrentlySelected::Nothing | CurrentlySelected::Growing => (
                        Scheduler { phase: wait_phase(5000, AfterWait::IdleDone), ..m },
                        Action::SetStatus(Some(StatusLine::Waiting5s), Some(StatusLine::Empty)),
                    ),
                    CurrentlySelected::Thirsty => (
                        Scheduler {
                            phase: Phase::StartUse { kind: UseKind::Water },
                            abort_on_missing_selection: true,
                        },
                        Action::SetStatus(Some(StatusLine::Watering), Some(StatusLine::Empty)),
                    ),
                    CurrentlySelected::Hungry => (
                        Scheduler {
                            phase: Phase::StartUse { kind: UseKind::Feed },
                            abort_on_missing_selection: true,
                        },
                        Action::SetStatus(Some(StatusLine::Fertilizing), Some(StatusLine::Empty)),
                    ),
                    CurrentlySelected::Ripe => (
                        Scheduler {
                            phase: Phase::StartUse { kind: UseKind::Harvest },
                            abort_on_missing_selection: false,
                        },
                        Action::SetStatus(Some(StatusLine::Harvesting), Some(StatusLine::Empty)),
                    ),
                }
            }
        },
        Phase::StartUse { kind } => if c.extra_delay_secs > 0 {
            (
                Scheduler {
                    phase: wait_phase((c.extra_delay_secs as u128 * 1000) as u128, AfterWait::ExtraDone { kind }),
                    ..m
                },
                Action::SetStatus(None, Some(StatusLine::WaitingExtra)),
            )
        } else {
            (
                Scheduler { phase: Phase::UseStep { kind, left: c.num_objects }, ..m },
                Action::FocusTarget,
            )
        },
        Phase::ClearExtraStatus { kind } => (
            Scheduler { phase: Phase::FocusForUse { kind }, ..m },
            Action::SetStatus(None, Some(StatusLine::Empty)),
        ),
        Phase::FocusForUse { kind } => (
            Scheduler { phase: Phase::UseStep { kind, left: c.num_objects }, ..m },
            Action::FocusTarget,
        ),
        Phase::UseStep { kind, left } => if left == 0 {
            (
                Scheduler {
                    phase: if kind == UseKind::Harvest {
                        Phase::HarvestDecrement
                    } else {
                        Phase::RoundCheck
                    },
                    ..m
                },
                Action::RestoreFocus,
            )
        } else {
            (
                Scheduler { phase: wait_phase(150, AfterWait::UseSecondKey { kind, left }), ..m },
                Action::SendKey(KEY_USE),
            )
        },
        Phase::UseSecond { kind, left } => (
            Scheduler { phase: wait_phase(150, AfterWait::UseThirdKey { kind, left }), ..m },
            Action::SendKey(KEY_USE),
        ),
        Phase::UseThird { kind, left } => (
            Scheduler { phase: wait_phase(150, AfterWait::UseStepDone { kind, left }), ..m },
            Action::SendKey(KEY_ADVANCE),
        ),
        Phase::HarvestDecrement => if c.num_rounds == 0 {
            (m, Action::Defect)
        } else {
            (Scheduler { phase: Phase::HarvestRecheck, ..m }, Action::DecrementRounds)
        },
        Phase::HarvestRecheck => {
            let v = can_continue_spec(c, m.abort_on_missing_selection);
            if v != Verdict::Go {
                (Scheduler { phase: Phase::RoundCheck, ..m }, verdict_action(v))
            } else {
                (
                    Scheduler { phase: Phase::FocusForReplant, ..m },
                    Action::SetStatus(Some(StatusLine::Replanting), Some(StatusLine::Empty)),
                )
            }
        },
        Phase::FocusForReplant => (
            Scheduler { phase: Phase::ReplantPress { slot: 0, press: 0 }, ..m },
            Action::FocusTarget,
        ),
        Phase::ReplantPress { slot, press } => (
            Scheduler { phase: wait_phase(225, AfterWait::ReplantPressDone { slot, press }), ..m },
            Action::SendKey((KEY_SLOT_BASE + slot as u16) as u16),
        ),
        Phase::ReplantAdvance => (
            Scheduler { phase: wait_phase(150, AfterWait::ReplantTailDone), ..m },
            Action::SendKey(KEY_ADVANCE),
        ),
        Phase::ReplantRestore => (Scheduler { phase: Phase::RoundCheck, ..m }, Action::RestoreFocus),
        Phase::Waiting { ticks_left, tick_ms, pending, after } => {
            let v = can_continue_spec(c, m.abort_on_missing_selection);
            if pending && v != Verdict::Go {
                (Scheduler { phase: Phase::RoundCheck, ..m }, verdict_action(v))
            } else if ticks_left > 0 {
                (
                    Scheduler {
                        phase: Phase::Waiting {
                            ticks_left: (ticks_left - 1) as u128,
                            tick_ms,
                            pending: true,
                            after,
                        },
                        ..m
                    },
                    Action::Wait(tick_ms),
                )
            } else {
                (Scheduler { phase: after_phase(after), ..m }, Action::Idle)
            }
        },
        Phase::SessionEnd => (Scheduler { phase: Phase::Parked, ..m }, Action::StoreRunning(false)),
    }
}

/// The wait state for an interruptible wait of `ms` milliseconds.
fn enter_wait(ms: u128, after: AfterWait) -> (p: Phase)
    ensures
        p == wait_phase(ms, after),
{
    if ms < TICK_MS as u128 {
        Phase::Waiting { ticks_left: 1, tick_ms: ms as u64, pending: false, after }
    } else {
        Phase::Waiting { ticks_left: ms / (TICK_MS as u128), tick_ms: TICK_MS, pending: false, after }
    }
}

impl Scheduler {
    /// A fresh worker: parked, with the abort flag clear.
    pub fn new() -> (r: Scheduler)
        ensures
            r.phase == Phase::Parked,
            !r.abort_on_missing_selection,
    {
        Scheduler { phase: Phase::Parked, abort_on_missing_selection: false }
    }

    /// A kick woke the parked worker: the target must be re-resolved before
    /// any session starts, because it may not have existed earlier.
    pub fn on_kick(&mut self) -> (a: Action)
        requires
            old(self).phase == Phase::Parked,
        ensures
            final(self).phase == Phase::Resolving,
            final(self).abort_on_missing_selection == old(self).abort_on_missing_selection,
            a == Action::Resolve,
    {
        self.phase = Phase::Resolving;
        Action::Resolve
    }

    /// The outcome of target resolution. On success the session starts: the
    /// run flag is set and the session loop entered. On failure the error is
    /// surfaced once and the worker parks again; the next kick retries.
    pub fn on_resolved(&mut self, ok: bool) -> (a: Action)
        requires
            old(self).phase == Phase::Resolving,
        ensures
            final(self).abort_on_missing_selection == old(self).abort_on_missing_selection,
            ok ==> final(self).phase == Phase::RoundCheck && a == Action::StoreRunning(true),
            !ok ==> final(self).phase == Phase::Parked && a == Action::ReportError,
    {
        if ok {
            self.phase = Phase::RoundCheck;
            Action::StoreRunning(true)
        } else {
            self.phase = Phase::Parked;
            Action::ReportError
        }
    }

    /// One decision: exactly the transition [`next`] describes.
    pub fn step(&mut self, c: &ControlState) -> (a: Action)
        ensures
            (*final(self), a) == next(*old(self), *c),
    {
        match self.phase {
            Phase::Parked => Action::Idle,
            Phase::Resolving => Action::Idle,
            Phase::RoundCheck => {
                let v = can_continue(c, self.abort_on_missing_selection);
                if !matches!(v, Verdict::Go) {
                    self.phase = Phase::SessionEnd;
                    match v {
                        Verdict::Finished => Action::SetStatus(
                            Some(StatusLine::Finished),
                            Some(StatusLine::Empty),
                        ),
                        Verdict::SelectionLost => Action::SetStatus(
                            Some(StatusLine::Empty),
                            Some(StatusLine::SelectionLost),
                        ),
                        _ => Action::Idle,
                    }
                } else if c.num_objects == 0 {
                    Action::Idle
                } else {
                    match c.cur_selected {
                        CurrentlySelected::Nothing | CurrentlySelected::Growing => {
                            self.phase = enter_wait(5000, AfterWait::IdleDone);
                            Action::SetStatus(Some(StatusLine::Waiting5s), Some(StatusLine::Empty))
                        },
                        CurrentlySelected::Thirsty => {
                            self.abort_on_missing_selection = true;
                            self.phase = Phase::StartUse { kind: UseKind::Water };
                            Action::SetStatus(Some(StatusLine::Watering), Some(StatusLine::Empty))
                        },
                        CurrentlySelected::Hungry => {
                            self.abort_on_missing_selection = true;
                            self.phase = Phase::StartUse { kind: UseKind::Feed };
                            Action::SetStatus(
                                Some(StatusLine::Fertilizing),
                                Some(StatusLine::Empty),
                            )
                        },
                        CurrentlySelected::Ripe => {
                            self.abort_on_missing_selection = false;
                            self.phase = Phase::StartUse { kind: UseKind::Harvest };
                            Action::SetStatus(Some(StatusLine::Harvesting), Some(StatusLine::Empty))
                        },
                    }
                }
            },
            Phase::StartUse { kind } => {
                if c.extra_delay_secs > 0 {
                    self.phase = enter_wait(
                        c.extra_delay_secs as u128 * 1000,
                        AfterWait::ExtraDone { kind },
                    );
                    Action::SetStatus(None, Some(StatusLine::WaitingExtra))
                } else {
                    self.phase = Phase::UseStep { kind, left: c.num_objects };
                    Action::FocusTarget
                }
            },
            Phase::ClearExtraStatus { kind } => {
                self.phase = Phase::FocusForUse { kind };
                Action::SetStatus(None, Some(StatusLine::Empty))
            },
            Phase::FocusForUse { kind } => {
                self.phase = Phase::UseStep { kind, left: c.num_objects };
                Action::FocusTarget
            },
            Phase::UseStep { kind, left } => {
                if left == 0 {
                    self.phase = if matches!(kind, UseKind::Harvest) {
                        Phase::HarvestDecrement
                    } else {
                        Phase::RoundCheck
                    };
                    Action::RestoreFocus
                } else {
                    self.phase = enter_wait(150, AfterWait::UseSecondKey { kind, left });
                    Action::SendKey(KEY_USE)
                }
            },
            Phase::UseSecond { kind, left } => {
                self.phase = enter_wait(150, AfterWait::UseThirdKey { kind, left });
                Action::SendKey(KEY_USE)
            },
            Phase::UseThird { kind, left } => {
                self.phase = enter_wait(150, AfterWait::UseStepDone { kind, left });
                Action::SendKey(KEY_ADVANCE)
            },
            Phase::HarvestDecrement => {
                if c.num_rounds == 0 {
                    Action::Defect
                } else {
                    self.phase = Phase::HarvestRecheck;
                    Action::DecrementRounds
                }
            },
            Phase::HarvestRecheck => {
                let v = can_continue(c, self.abort_on_missing_selection);
                if !matches!(v, Verdict::Go) {
                    self.phase = Phase::RoundCheck;
                    match v {
                        Verdict::Finished => Action::SetStatus(
                            Some(StatusLine::Finished),
                            Some(StatusLine::Empty),
                        ),
                        Verdict::SelectionLost => Action::SetStatus(
                            Some(StatusLine::Empty),
                            Some(StatusLine::SelectionLost),
                        ),
                        _ => Action::Idle,
                    }
                } else {
                    self.phase = Phase::FocusForReplant;
                    Action::SetStatus(Some(StatusLine::Replanting), Some(StatusLine::Empty))
                }
            },
            Phase::FocusForReplant => {
                self.phase = Phase::ReplantPress { slot: 0, press: 0 };
                Action::FocusTarget
            },
            Phase::ReplantPress { slot, press } => {
                self.phase = enter_wait(225, AfterWait::ReplantPressDone { slot, press });
                Action::SendKey(KEY_SLOT_BASE + slot as u16)
            },
            Phase::ReplantAdvance => {
                self.phase = enter_wait(150, AfterWait::ReplantTailDone);
                Action::SendKey(KEY_ADVANCE)
            },
            Phase::ReplantRestore => {
                self.phase = Phase::RoundCheck;
                Action::RestoreFocus
            },
            Phase::Waiting { ticks_left, tick_ms, pending, after } => {
                let mut failed = false;
                let mut fail_action = Action::Idle;
                if pending {
                    let v = can_continue(c, self.abort_on_missing_selection);
                    if !matches!(v, Verdict::Go) {
                        failed = true;
                        fail_action = match v {
                            Verdict::Finished => Action::SetStatus(
                                Some(StatusLine::Finished),
                                Some(StatusLine::Empty),
                            ),
                            Verdict::SelectionLost => Action::SetStatus(
                                Some(StatusLine::Empty),
                                Some(StatusLine::SelectionLost),
                            ),
                            _ => Action::Idle,
                        };
                    }
                }
                if failed {
                    self.phase = Phase::RoundCheck;
                    fail_action
                } else if ticks_left > 0 {
                    self.phase = Phase::Waiting {
                        ticks_left: ticks_left - 1,
                        tick_ms,
                        pending: true,
                        after,
                    };
                    Action::Wait(tick_ms)
                } else {
                    self.phase = match after {
                        AfterWait::IdleDone => Phase::RoundCheck,
                        AfterWait::ExtraDone { kind } => Phase::ClearExtraStatus { kind },
                        AfterWait::UseSecondKey { kind, left } => Phase::UseSecond { kind, left },
                        AfterWait::UseThirdKey { kind, left } => Phase::UseThird { kind, left },
                        AfterWait::UseStepDone { kind, left } => Phase::UseStep {
                            kind,
                            left: if left > 0 {
                                left - 1
                            } else {
                                0
                            },
                        },
                        AfterWait::ReplantPressDone { slot, press } => {
                            if press < 2 {
                                Phase::ReplantPress { slot, press: press + 1 }
                            } else if slot < 4 {
                                Phase::ReplantPress { slot: slot + 1, press: 0 }
                            } else {
                                enter_wait(150, AfterWait::ReplantGapDone)
                            }
                        },
                        AfterWait::ReplantGapDone => Phase::ReplantAdvance,
                        AfterWait::ReplantTailDone => Phase::ReplantRestore,
                    };
                    Action::Idle
                }
            },
            Phase::SessionEnd => {
                self.phase = Phase::Parked;
                Action::StoreRunning(false)
            },
        }
    }
}

} // verus!
