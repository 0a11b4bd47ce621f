use pf_sandbox::input::{ControllerInput, Input, OutOfRange, PlayerInput};

fn plugged() -> ControllerInput {
    let mut c = ControllerInput::empty();
    c.plugged_in = true;
    c
}

fn record(input: &mut Input, frame: usize, rows: Vec<ControllerInput>) {
    input.update(&rows);
    input.game_update(frame);
}

#[test]
fn empty_sample_is_neutral() {
    let c = ControllerInput::empty();
    assert!(!c.plugged_in);
    assert!(!c.a && !c.b && !c.x && !c.y && !c.start);
    assert_eq!(c.stick_x, 0);
    assert_eq!(c.stick_y, 0);
    assert_eq!(c.l_trigger, 0);
    let p = PlayerInput::empty();
    assert!(!p.plugged_in);
    assert!(!p.a.value && !p.a.press);
    assert_eq!(p.stick_x.value, 0);
    assert_eq!(p.stick_x.diff, 0);
}

#[test]
fn press_edge_sequence() {
    // raw a-button sequence off, on, on, off, on gives presses only on the
    // two off-to-on transitions
    let mut input = Input::new(1);
    let raw = [false, true, true, false, true];
    let expected_press = [false, true, false, false, true];
    for (f, on) in raw.iter().enumerate() {
        let mut c = plugged();
        c.a = *on;
        record(&mut input, f, vec![c]);
    }
    for f in 0..raw.len() {
        let li = input.players(f).unwrap();
        assert_eq!(li[0].a.value, raw[f], "value at frame {}", f);
        assert_eq!(li[0].a.press, expected_press[f], "press at frame {}", f);
    }
}

#[test]
fn neutral_frame_zero_boundary() {
    // a hard stick deflection and a held button on the very first frame:
    // the press derives from frame 0 alone, and the delta is measured
    // against the neutral sample, not against any phantom earlier frame
    let mut input = Input::new(1);
    let mut c = plugged();
    c.a = true;
    c.stick_x = 50;
    record(&mut input, 0, vec![c]);
    let li = input.players(0).unwrap();
    assert!(li[0].a.press);
    assert_eq!(li[0].stick_x.value, 50);
    assert_eq!(li[0].stick_x.diff, 50);
    assert_eq!(li[0].stick_y.diff, 0);
    assert_eq!(li[0].l_trigger.diff, 0);
}

#[test]
fn stick_delta_tracks_previous_frame() {
    let mut input = Input::new(1);
    let mut c0 = plugged();
    c0.stick_x = 40;
    record(&mut input, 0, vec![c0]);
    let mut c1 = plugged();
    c1.stick_x = -30;
    record(&mut input, 1, vec![c1]);
    let li = input.players(1).unwrap();
    assert_eq!(li[0].stick_x.value, -30);
    assert_eq!(li[0].stick_x.diff, -70);
}

#[test]
fn unplugged_slot_is_all_neutral() {
    // stale raw values on an unplugged controller never surface
    let mut input = Input::new(1);
    let mut c = ControllerInput::empty();
    c.a = true;
    c.stick_x = 80;
    record(&mut input, 0, vec![c]);
    let li = input.players(0).unwrap();
    assert_eq!(li[0], PlayerInput::empty());
}

#[test]
fn truncate_on_record() {
    // recording at frame 1 while frames 1..4 exist discards them first
    let mut input = Input::new(1);
    for f in 0..5 {
        let mut c = plugged();
        c.b = f >= 1;
        record(&mut input, f, vec![c]);
    }
    assert_eq!(input.last_frame(), Some(4));
    let fresh = plugged();
    record(&mut input, 1, vec![fresh]);
    assert_eq!(input.last_frame(), Some(1));
    assert!(input.players(2).is_err());
    let li = input.players(1).unwrap();
    assert!(!li[0].b.value);
}

#[test]
fn out_of_range_is_signalled() {
    let mut input = Input::new(2);
    assert_eq!(input.players(0), Err(OutOfRange));
    record(&mut input, 0, vec![plugged(), plugged()]);
    assert!(input.players(0).is_ok());
    assert_eq!(input.players(1), Err(OutOfRange));
}

#[test]
fn short_capture_is_neutral_filled() {
    // a capture fault delivering fewer rows than slots degrades to neutral
    let mut input = Input::new(2);
    let mut c = plugged();
    c.a = true;
    record(&mut input, 0, vec![c]);
    let li = input.players(0).unwrap();
    assert_eq!(li.len(), 2);
    assert!(li[0].a.press);
    assert_eq!(li[1], PlayerInput::empty());
}

#[test]
fn last_frame_sentinel_and_reset() {
    let mut input = Input::new(1);
    assert_eq!(input.last_frame(), None);
    record(&mut input, 0, vec![plugged()]);
    record(&mut input, 1, vec![plugged()]);
    assert_eq!(input.last_frame(), Some(1));
    input.reset_history();
    assert_eq!(input.last_frame(), None);
}

#[test]
fn start_pressed_is_edge_triggered() {
    let mut input = Input::new(1);
    let mut held = plugged();
    held.start = true;
    input.update(&vec![held]);
    assert!(input.start_pressed());
    assert!(!input.start_pressed());
    input.update(&vec![plugged()]);
    assert!(!input.start_pressed());
    input.update(&vec![held]);
    assert!(input.start_pressed());
}

#[test]
fn controller_count_is_fixed() {
    let input = Input::new(4);
    assert_eq!(input.controller_count(), 4);
}

#[test]
fn recorded_samples_are_readable_by_frame() {
    let mut input = Input::new(1);
    let mut c = plugged();
    c.z = true;
    record(&mut input, 0, vec![c]);
    record(&mut input, 1, vec![plugged()]);
    assert!(input.sample(0).unwrap()[0].z);
    assert!(!input.sample(1).unwrap()[0].z);
    assert!(input.sample(2).is_none());
}
