//! Shared control state and the session-control transitions.
//!
//! One instance of this state is shared between the perception thread and the
//! worker. The worker reads a fresh snapshot of the scalar fields before every
//! decision; the perception side updates them through the small, exactly
//! specified transitions below. The status pair is the human-readable progress
//! text the worker publishes as it goes.

use vstd::prelude::*;
use crate::classify::CurrentlySelected;

verus! {

/// Snapshot of the scalar control state shared between the threads.
///
/// `running` is true while a round-execution session is active;
/// `num_rounds` counts remaining rounds down to 0; `num_objects` and
/// `extra_delay_secs` are the session parameters; `cur_selected` is the last
/// classification observed.
#[derive(Clone, Copy, Debug, PartialEq, Eq, Structural)]
pub struct ControlState {
    pub running: bool,
    pub num_rounds: usize,
    pub num_objects: usize,
    pub extra_delay_secs: usize,
    pub cur_selected: CurrentlySelected,
}

/// Why the worker keeps going or stops, as decided by the continuation
/// predicate before every round and at every tick of every interruptible
/// wait.
#[derive(Clone, Copy, Debug, PartialEq, Eq, Structural)]
pub enum Verdict {
    /// Keep executing rounds.
    Go,
    /// An external stop request cleared the run flag.
    Stopped,
    /// The remaining-round counter reached 0.
    Finished,
    /// The selection vanished while a maintenance action was in flight.
    SelectionLost,
}

/// The continuation predicate: stop on an external stop request, on running
/// out of rounds, or on losing the selection mid-maintenance; otherwise go.
pub open spec fn can_continue_spec(c: ControlState, abort_on_missing_selection: bool) -> Verdict {
    if !c.running {
        Verdict::Stopped
    } else if c.num_rounds == 0 {
        Verdict::Finished
    } else if abort_on_missing_selection && c.cur_selected == CurrentlySelected::Nothing {
        Verdict::SelectionLost
    } else {
        Verdict::Go
    }
}

/// Decides [`can_continue_spec`] on a snapshot.
pub fn can_continue(c: &ControlState, abort_on_missing_selection: bool) -> (r: Verdict)
    ensures
        r == can_continue_spec(*c, abort_on_missing_selection),
{
    if !c.running {
        Verdict::Stopped
    } else if c.num_rounds == 0 {
        Verdict::Finished
    } else if abort_on_missing_selection && c.cur_selected == CurrentlySelected::Nothing {
        Verdict::SelectionLost
    } else {
        Verdict::Go
    }
}

/// A stop request: clears the run flag and touches nothing else. The worker
/// observes it at its next continuation check.
pub fn apply_stop(c: ControlState) -> (r: ControlState)
    ensures
        r == (ControlState { running: false, ..c }),
{
    ControlState { running: false, ..c }
}

/// Setting the session parameters before a session start.
pub fn apply_configure(c: ControlState, rounds: usize, objects: usize, delay_secs: usize) -> (r:
    ControlState)
    ensures
        r == (ControlState {
            num_rounds: rounds,
            num_objects: objects,
            extra_delay_secs: delay_secs,
            ..c
        }),
{
    ControlState { num_rounds: rounds, num_objects: objects, extra_delay_secs: delay_secs, ..c }
}

/// A session start: first breaks any running session by clearing the run
/// flag, then requests a wake. The second component is the kick signal;
/// pending kicks coalesce, so it is a plain flag.
pub fn apply_start(c: ControlState) -> (r: (ControlState, bool))
    ensures
        r.0 == (ControlState { running: false, ..c }),
        r.1,
{
    (ControlState { running: false, ..c }, true)
}

/// The wake decision on the perception side: after storing a new
/// classification, kick the parked worker exactly when the category changed
/// and the previous one was an idle category, in which case the worker may be
/// sitting in its long idle wait.
pub fn should_kick(prev: CurrentlySelected, new_sel: CurrentlySelected) -> (r: bool)
    ensures
        r == (new_sel != prev && (prev == CurrentlySelected::Nothing || prev
            == CurrentlySelected::Growing)),
{
    new_sel != prev && (matches!(prev, CurrentlySelected::Nothing) || matches!(
        prev,
        CurrentlySelected::Growing,
    ))
}

/// Stopping when already stopped is a no-op: a stop request on a state whose
/// run flag is already clear returns the state unchanged, and a second stop
/// right after a first changes nothing more.
pub proof fn lemma_stop_idempotent(c: ControlState)
    ensures
        !c.running ==> (ControlState { running: false, ..c }) == c,
        (ControlState { running: false, ..(ControlState { running: false, ..c }) })
            == (ControlState { running: false, ..c }),
{
}

/// What configure-then-start leaves in the control state.
pub open spec fn start_session_spec(c: ControlState, rounds: usize, objects: usize, delay: usize)
    -> ControlState {
    ControlState {
        running: false,
        num_rounds: rounds,
        num_objects: objects,
        extra_delay_secs: delay,
        ..c
    }
}

/// Two session starts in a row are one session start with the second set of
/// parameters: the first start only clears the run flag, which cancels the
/// in-flight session before the new parameters take effect, and the kick
/// signals coalesce.
pub proof fn lemma_start_twice(
    c: ControlState,
    rounds1: usize,
    objects1: usize,
    delay1: usize,
    rounds2: usize,
    objects2: usize,
    delay2: usize,
)
    ensures
        start_session_spec(start_session_spec(c, rounds1, objects1, delay1), rounds2, objects2, delay2)
            == start_session_spec(c, rounds2, objects2, delay2),
{
}

/// The two lines of human-readable progress text the worker publishes.
pub struct StatusPair {
    pub line0: String,
    pub line1: String,
}

/// One status message the worker can publish on a line.
#[derive(Clone, Copy, Debug, PartialEq, Eq, Structural)]
pub enum StatusLine {
    /// Clears the line.
    Empty,
    Waiting5s,
    Watering,
    Fertilizing,
    Harvesting,
    Replanting,
    WaitingExtra,
    Finished,
    SelectionLost,
}

impl StatusLine {
    /// The text of the message, character for character.
    pub open spec fn text_spec(self) -> Seq<char> {
        match self {
            StatusLine::Empty => ""@,
            StatusLine::Waiting5s => "Waiting 5s ..."@,
            StatusLine::Watering => "Watering!"@,
            StatusLine::Fertilizing => "Fertilizing!"@,
            StatusLine::Harvesting => "Harvesting!"@,
            StatusLine::Replanting => "Replanting!"@,
            StatusLine::WaitingExtra => "Waiting extra seconds ..."@,
            StatusLine::Finished => "Finished all rounds"@,
            StatusLine::SelectionLost => "Selection changed abruptly! Stopping"@,
        }
    }

    /// Renders the message.
    pub fn text(self) -> (r: &'static str)
        ensures
            r@ == self.text_spec(),
    {
        match self {
            StatusLine::Empty => "",
            StatusLine::Waiting5s => "Waiting 5s ...",
            StatusLine::Watering => "Watering!",
            StatusLine::Fertilizing => "Fertilizing!",
            StatusLine::Harvesting => "Harvesting!",
            StatusLine::Replanting => "Replanting!",
            StatusLine::WaitingExtra => "Waiting extra seconds ...",
            StatusLine::Finished => "Finished all rounds",
            StatusLine::SelectionLost => "Selection changed abruptly! Stopping",
        }
    }
}

impl StatusPair {
    /// Two empty lines.
    pub fn new() -> (r: StatusPair)
        ensures
            r.line0@ == Seq::<char>::empty(),
            r.line1@ == Seq::<char>::empty(),
    {
        StatusPair { line0: String::new(), line1: String::new() }
    }

    /// Replaces each line for which an update is given and keeps the other.
    pub fn update(&mut self, s0: Option<StatusLine>, s1: Option<StatusLine>)
        ensures
            final(self).line0@ == (match s0 {
                Some(m) => m.text_spec(),
                None => old(self).line0@,
            }),
            final(self).line1@ == (match s1 {
                Some(m) => m.text_spec(),
                None => old(self).line1@,
            }),
    {
        if let Some(m) = s0 {
            self.line0 = String::from_str(m.text());
        }
        if let Some(m) = s1 {
            self.line1 = String::from_str(m.text());
        }
    }
}

} // verus!
