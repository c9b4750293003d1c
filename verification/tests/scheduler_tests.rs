use gardenbot::classify::CurrentlySelected;
use gardenbot::control::ControlState;
use gardenbot::scheduler::{Action, Phase, Scheduler, KEY_ADVANCE, KEY_SLOT_BASE, KEY_USE};

/// Drives the machine like the worker thread does, with the environment
/// frozen apart from the machine's own writes, until it parks.
fn drive(s: &mut Scheduler, c: &mut ControlState, max_steps: usize) -> Vec<Action> {
    let mut trace = Vec::new();
    for _ in 0..max_steps {
        if matches!(s.phase, Phase::Parked) {
            break;
        }
        let a = s.step(c);
        match a {
            Action::StoreRunning(b) => c.running = b,
            Action::DecrementRounds => {
                assert!(c.num_rounds > 0);
                c.num_rounds -= 1;
            }
            _ => {}
        }
        trace.push(a);
    }
    trace
}

fn started() -> Scheduler {
    let mut s = Scheduler::new();
    assert!(matches!(s.phase, Phase::Parked));
    let a = s.on_kick();
    assert!(matches!(a, Action::Resolve));
    let a = s.on_resolved(true);
    assert!(matches!(a, Action::StoreRunning(true)));
    s
}

#[test]
fn resolve_failure_parks_again() {
    let mut s = Scheduler::new();
    s.on_kick();
    let a = s.on_resolved(false);
    assert!(matches!(a, Action::ReportError));
    assert!(matches!(s.phase, Phase::Parked));
}

#[test]
fn harvest_two_rounds_then_finish() {
    let mut s = started();
    let mut c = ControlState {
        running: true,
        num_rounds: 2,
        num_objects: 1,
        extra_delay_secs: 0,
        cur_selected: CurrentlySelected::Ripe,
    };
    let trace = drive(&mut s, &mut c, 10_000);
    assert!(matches!(s.phase, Phase::Parked));
    assert!(!c.running);
    assert_eq!(c.num_rounds, 0);
    let decrements = trace
        .iter()
        .filter(|a| matches!(a, Action::DecrementRounds))
        .count();
    assert_eq!(decrements, 2);
    // one full round is 81 decisions, the final one 16
    assert_eq!(trace.len(), 97);
    // no key and no focus after the final decrement: no replant follows it
    let last = trace
        .iter()
        .rposition(|a| matches!(a, Action::DecrementRounds))
        .unwrap();
    assert!(trace[last + 1..]
        .iter()
        .all(|a| !matches!(a, Action::SendKey(_) | Action::FocusTarget)));
}

#[test]
fn harvest_round_key_sequence() {
    let mut s = started();
    let mut c = ControlState {
        running: true,
        num_rounds: 2,
        num_objects: 1,
        extra_delay_secs: 0,
        cur_selected: CurrentlySelected::Ripe,
    };
    let trace = drive(&mut s, &mut c, 10_000);
    let keys: Vec<u16> = trace
        .iter()
        .filter_map(|a| match a {
            Action::SendKey(k) => Some(*k),
            _ => None,
        })
        .collect();
    // round 1: use, use, advance; then 3 presses for each of 5 slots; then advance.
    // round 2 (the final round): use, use, advance only.
    let mut expected = vec![KEY_USE, KEY_USE, KEY_ADVANCE];
    for slot in 0..5u16 {
        for _ in 0..3 {
            expected.push(KEY_SLOT_BASE + slot);
        }
    }
    expected.push(KEY_ADVANCE);
    expected.extend([KEY_USE, KEY_USE, KEY_ADVANCE]);
    assert_eq!(keys, expected);
}

#[test]
fn stop_mid_wait_parks_within_one_tick() {
    let mut s = started();
    let mut c = ControlState {
        running: true,
        num_rounds: 3,
        num_objects: 1,
        extra_delay_secs: 0,
        cur_selected: CurrentlySelected::Nothing,
    };
    // enters the long idle wait
    let a = s.step(&c);
    assert!(matches!(a, Action::SetStatus(..)));
    assert!(matches!(s.phase, Phase::Waiting { .. }));
    // one tick of sleeping
    let a = s.step(&c);
    assert!(matches!(a, Action::Wait(100)));
    // the stop request arrives during the sleep
    c.running = false;
    let trace = drive(&mut s, &mut c, 100);
    assert!(matches!(s.phase, Phase::Parked));
    assert!(trace.len() <= 4);
    assert!(trace
        .iter()
        .all(|a| !matches!(a, Action::SendKey(_) | Action::Wait(_) | Action::FocusTarget)));
}

#[test]
fn lost_selection_aborts_without_decrement() {
    let mut s = started();
    let mut c = ControlState {
        running: true,
        num_rounds: 5,
        num_objects: 2,
        extra_delay_secs: 0,
        cur_selected: CurrentlySelected::Thirsty,
    };
    // branch into the watering round: sets the abort flag
    let a = s.step(&c);
    assert!(matches!(a, Action::SetStatus(..)));
    assert!(s.abort_on_missing_selection);
    // focus, first use key, one tick
    assert!(matches!(s.step(&c), Action::FocusTarget));
    assert!(matches!(s.step(&c), Action::SendKey(k) if k == KEY_USE));
    assert!(matches!(s.step(&c), Action::Wait(100)));
    // the selection vanishes mid-action
    c.cur_selected = CurrentlySelected::Nothing;
    let trace = drive(&mut s, &mut c, 100);
    assert!(matches!(s.phase, Phase::Parked));
    assert!(!c.running);
    assert_eq!(c.num_rounds, 5);
    assert!(trace
        .iter()
        .all(|a| !matches!(a, Action::DecrementRounds | Action::SendKey(_))));
}

#[test]
fn zero_objects_is_a_no_op_round() {
    let mut s = started();
    let c = ControlState {
        running: true,
        num_rounds: 1,
        num_objects: 0,
        extra_delay_secs: 0,
        cur_selected: CurrentlySelected::Ripe,
    };
    // the round is a no-op: the machine idles at the loop head
    assert!(matches!(s.step(&c), Action::Idle));
    assert!(matches!(s.phase, Phase::RoundCheck));
    assert!(matches!(s.step(&c), Action::Idle));
    assert!(matches!(s.phase, Phase::RoundCheck));
}

#[test]
fn extra_delay_waits_before_the_first_key() {
    let mut s = started();
    let mut c = ControlState {
        running: true,
        num_rounds: 3,
        num_objects: 1,
        extra_delay_secs: 1,
        cur_selected: CurrentlySelected::Thirsty,
    };
    let mut waits_before_key = 0;
    loop {
        let a = s.step(&mut c);
        match a {
            Action::SendKey(_) => break,
            Action::Wait(ms) => {
                assert_eq!(ms, 100);
                waits_before_key += 1;
            }
            Action::StoreRunning(b) => c.running = b,
            _ => {}
        }
        assert!(waits_before_key < 50);
    }
    // one second of extra delay, slept in ten 100ms ticks
    assert_eq!(waits_before_key, 10);
}

#[test]
fn finished_session_reports_and_stops() {
    let mut s = started();
    let mut c = ControlState {
        running: true,
        num_rounds: 0,
        num_objects: 1,
        extra_delay_secs: 0,
        cur_selected: CurrentlySelected::Ripe,
    };
    let trace = drive(&mut s, &mut c, 100);
    assert!(matches!(s.phase, Phase::Parked));
    assert!(!c.running);
    // announces the finish, then clears the run flag
    assert!(matches!(trace[0], Action::SetStatus(..)));
    assert!(matches!(trace.last().unwrap(), Action::StoreRunning(false)));
}
