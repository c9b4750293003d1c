use gardenbot::classify::CurrentlySelected;
use gardenbot::control::{
    apply_configure, apply_start, apply_stop, can_continue, should_kick, ControlState, StatusLine,
    StatusPair, Verdict,
};

fn idle_state() -> ControlState {
    ControlState {
        running: false,
        num_rounds: 0,
        num_objects: 0,
        extra_delay_secs: 0,
        cur_selected: CurrentlySelected::Nothing,
    }
}

#[test]
fn stop_when_already_stopped_is_a_no_op() {
    let c = idle_state();
    assert_eq!(apply_stop(c), c);
    let running = ControlState { running: true, ..c };
    let once = apply_stop(running);
    assert_eq!(apply_stop(once), once);
}

#[test]
fn start_twice_is_one_start_with_the_second_parameters() {
    let c = ControlState { running: true, ..idle_state() };
    let first = apply_start(apply_configure(c, 10, 2, 5));
    let second = apply_start(apply_configure(first.0, 3, 1, 0));
    let direct = apply_start(apply_configure(c, 3, 1, 0));
    assert_eq!(second.0, direct.0);
    // both request a wake; pending kicks coalesce
    assert!(second.1 && direct.1);
}

#[test]
fn start_breaks_the_running_session() {
    let c = ControlState { running: true, ..idle_state() };
    let (after, kick) = apply_start(c);
    assert!(!after.running);
    assert!(kick);
}

#[test]
fn continuation_verdicts() {
    let base = ControlState {
        running: true,
        num_rounds: 2,
        num_objects: 1,
        extra_delay_secs: 0,
        cur_selected: CurrentlySelected::Ripe,
    };
    assert_eq!(can_continue(&base, false), Verdict::Go);
    assert_eq!(can_continue(&ControlState { running: false, ..base }, false), Verdict::Stopped);
    assert_eq!(can_continue(&ControlState { num_rounds: 0, ..base }, false), Verdict::Finished);
    let gone = ControlState { cur_selected: CurrentlySelected::Nothing, ..base };
    assert_eq!(can_continue(&gone, true), Verdict::SelectionLost);
    // without the abort flag a missing selection does not stop the session
    assert_eq!(can_continue(&gone, false), Verdict::Go);
    // the stop request wins over everything
    assert_eq!(
        can_continue(&ControlState { running: false, num_rounds: 0, ..base }, true),
        Verdict::Stopped
    );
}

#[test]
fn kick_on_transition_out_of_idle_categories() {
    let nothing = CurrentlySelected::Nothing;
    let growing = CurrentlySelected::Growing;
    assert!(should_kick(nothing, CurrentlySelected::Ripe));
    assert!(should_kick(growing, CurrentlySelected::Thirsty));
    assert!(should_kick(nothing, growing));
    // no change: no kick
    assert!(!should_kick(CurrentlySelected::Ripe, CurrentlySelected::Ripe));
    assert!(!should_kick(nothing, nothing));
    // the worker is not parked in the idle wait after a non-idle category
    assert!(!should_kick(CurrentlySelected::Ripe, nothing));
    assert!(!should_kick(CurrentlySelected::Thirsty, CurrentlySelected::Hungry));
}

#[test]
fn status_updates_replace_only_given_lines() {
    let mut p = StatusPair::new();
    assert_eq!(p.line0, "");
    assert_eq!(p.line1, "");
    p.update(Some(StatusLine::Harvesting), Some(StatusLine::Empty));
    assert_eq!(p.line0, "Harvesting!");
    assert_eq!(p.line1, "");
    p.update(None, Some(StatusLine::WaitingExtra));
    assert_eq!(p.line0, "Harvesting!");
    assert_eq!(p.line1, "Waiting extra seconds ...");
    p.update(Some(StatusLine::Empty), None);
    assert_eq!(p.line0, "");
    assert_eq!(p.line1, "Waiting extra seconds ...");
}

#[test]
fn status_texts() {
    assert_eq!(StatusLine::Waiting5s.text(), "Waiting 5s ...");
    assert_eq!(StatusLine::Watering.text(), "Watering!");
    assert_eq!(StatusLine::Fertilizing.text(), "Fertilizing!");
    assert_eq!(StatusLine::Replanting.text(), "Replanting!");
    assert_eq!(StatusLine::Finished.text(), "Finished all rounds");
    assert_eq!(
        StatusLine::SelectionLost.text(),
        "Selection changed abruptly! Stopping"
    );
}
