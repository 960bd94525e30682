use sdmap::codes::{
    ABS_HAT0X, ABS_HAT0Y, ABS_HAT1X, ABS_HAT1Y, ABS_X, ABS_Y, BTN_DPAD_UP, BTN_EAST, BTN_NORTH,
    BTN_SELECT, BTN_SOUTH, BTN_THUMB, BTN_THUMBR, BTN_TL, BTN_TRIGGER_HAPPY2, BTN_WEST, EV_ABS,
    EV_KEY, EV_REL, KEY_1, KEY_BACKSPACE, KEY_ENTER, KEY_ESC, KEY_PAGEUP, KEY_RIGHTALT, KEY_S,
    KEY_SPACE, KEY_TAB, KEY_UNKNOWN, KEY_UP, REL_X, REL_Y,
};
use sdmap::event::{DevState, Event};
use sdmap::position::NO_CELL;
use sdmap::remap::{Batch, Daemon};

const M: i32 = 100;

fn state(axes: &[(u16, i32)], keys: &[u16]) -> DevState {
    let mut abs = vec![0; 64];
    for (code, v) in axes {
        abs[*code as usize] = *v;
    }
    DevState { abs, keys: keys.to_vec() }
}

fn key(code: u16, value: i32) -> Event {
    Event { kind: EV_KEY, code, value }
}

fn axis(code: u16, value: i32) -> Event {
    Event { kind: EV_ABS, code, value }
}

fn rel(code: u16, value: i32) -> Event {
    Event { kind: EV_REL, code, value }
}

fn step(d: &mut Daemon, s: DevState, events: Vec<Event>) -> Batch {
    d.process(s, &events)
}

#[test]
fn dpad_modifier_sequence() {
    let mut d = Daemon::new(M, state(&[], &[]));
    let b = step(&mut d, state(&[], &[BTN_DPAD_UP]), vec![key(BTN_DPAD_UP, 1)]);
    assert_eq!(b.out, vec![key(KEY_UP, 1)]);
    let b = step(&mut d, state(&[], &[BTN_DPAD_UP, BTN_TRIGGER_HAPPY2]), vec![key(BTN_TRIGGER_HAPPY2, 1)]);
    assert_eq!(b.out, vec![key(KEY_RIGHTALT, 1)]);
    let b = step(&mut d, state(&[], &[BTN_TRIGGER_HAPPY2]), vec![key(BTN_DPAD_UP, 0)]);
    assert_eq!(b.out, vec![key(KEY_PAGEUP, 0), key(KEY_UP, 0)]);
    let b = step(&mut d, state(&[], &[]), vec![key(BTN_TRIGGER_HAPPY2, 0)]);
    assert_eq!(b.out, vec![key(KEY_RIGHTALT, 0)]);
}

#[test]
fn dpad_press_with_modifier_held() {
    let mut d = Daemon::new(M, state(&[], &[]));
    let b = step(&mut d, state(&[], &[BTN_TRIGGER_HAPPY2, BTN_DPAD_UP]), vec![key(BTN_DPAD_UP, 1)]);
    assert_eq!(b.out, vec![key(KEY_PAGEUP, 1)]);
}

#[test]
fn upper_left_corner_types_layout_key() {
    let mut d = Daemon::new(M, state(&[], &[]));
    let s = state(&[(ABS_HAT0X, -M), (ABS_HAT0Y, M)], &[BTN_SOUTH]);
    let b = step(&mut d, s, vec![key(BTN_SOUTH, 1)]);
    assert_eq!(b.out, vec![key(KEY_1, 1), key(KEY_1, 0)]);
    assert_eq!(d.vkbd_xy(false), (0, 0));
}

#[test]
fn pad_at_rest_types_fallback_keys() {
    let mut d = Daemon::new(M, state(&[], &[]));
    let cases = [(BTN_SOUTH, KEY_ENTER), (BTN_EAST, KEY_ESC), (BTN_WEST, KEY_SPACE), (BTN_NORTH, KEY_BACKSPACE)];
    for (button, expected) in cases {
        let b = step(&mut d, state(&[], &[button]), vec![key(button, 1)]);
        assert_eq!(b.out, vec![key(expected, 1), key(expected, 0)]);
        assert!(b.ipc.is_none());
    }
}

#[test]
fn face_button_release_emits_nothing() {
    let mut d = Daemon::new(M, state(&[], &[]));
    let b = step(&mut d, state(&[], &[]), vec![key(BTN_SOUTH, 0)]);
    assert!(b.out.is_empty());
}

#[test]
fn unused_layer_at_rest_taps_placeholder() {
    let mut d = Daemon::new(M, state(&[], &[]));
    let b = step(&mut d, state(&[], &[BTN_THUMBR]), vec![key(BTN_THUMBR, 1)]);
    assert_eq!(b.out, vec![key(KEY_UNKNOWN, 1), key(KEY_UNKNOWN, 0)]);
}

#[test]
fn second_layer_of_lower_cell() {
    let mut d = Daemon::new(M, state(&[], &[]));
    // column 0, row 2: x at the far left, y a little below the centre
    let s = state(&[(ABS_HAT0X, -M), (ABS_HAT0Y, -10)], &[BTN_EAST]);
    let b = step(&mut d, s, vec![key(BTN_EAST, 1)]);
    assert_eq!(b.out, vec![key(KEY_S, 1), key(KEY_S, 0)]);
}

#[test]
fn thumb_alone_toggles_to_gamepad() {
    let mut d = Daemon::new(M, state(&[], &[]));
    let b = step(&mut d, state(&[], &[BTN_THUMB]), vec![key(BTN_THUMB, 1)]);
    assert!(b.toggled);
    assert!(!d.kbd_mode);
    assert!(b.out.is_empty());
    assert_eq!(b.scroll, Some((0, 0)));
    let b = step(&mut d, state(&[], &[BTN_DPAD_UP]), vec![key(BTN_DPAD_UP, 1)]);
    assert!(!b.toggled);
    assert!(b.out.is_empty());
    assert!(b.ipc.is_none());
}

#[test]
fn thumb_with_other_button_does_not_toggle() {
    let mut d = Daemon::new(M, state(&[], &[]));
    let b = step(&mut d, state(&[], &[BTN_THUMB, BTN_TL]), vec![key(BTN_THUMB, 1)]);
    assert!(!b.toggled);
    assert!(d.kbd_mode);
}

#[test]
fn toggling_twice_restores_desktop_mode() {
    let mut d = Daemon::new(M, state(&[], &[]));
    let b = step(&mut d, state(&[(ABS_X, 5000)], &[]), vec![axis(ABS_X, 5000)]);
    assert_eq!(b.scroll, Some((5000, 0)));
    let b = step(&mut d, state(&[(ABS_X, 5000)], &[BTN_THUMB]), vec![key(BTN_THUMB, 1)]);
    assert!(b.toggled && !d.kbd_mode);
    step(&mut d, state(&[(ABS_X, 5000)], &[]), vec![key(BTN_THUMB, 0)]);
    let b = step(&mut d, state(&[(ABS_X, 5000)], &[BTN_THUMB]), vec![key(BTN_THUMB, 1)]);
    assert!(b.toggled && d.kbd_mode);
    assert_eq!(d.scroll_xy, (0, 0));
    let b = step(&mut d, state(&[(ABS_X, 5000)], &[BTN_DPAD_UP]), vec![key(BTN_DPAD_UP, 1)]);
    assert_eq!(b.out, vec![key(KEY_UP, 1)]);
}

#[test]
fn cell_change_publishes_text() {
    let mut d = Daemon::new(M, state(&[], &[]));
    let b = step(&mut d, state(&[(ABS_HAT0X, -M), (ABS_HAT0Y, M)], &[]), vec![axis(ABS_HAT0X, -M), axis(ABS_HAT0Y, M)]);
    assert_eq!(b.ipc, Some(b"0 0".to_vec()));
    let b = step(&mut d, state(&[(ABS_HAT0X, 50), (ABS_HAT0Y, -10)], &[]), vec![axis(ABS_HAT0X, 50), axis(ABS_HAT0Y, -10)]);
    assert_eq!(d.vkbd_xy(true), (0, 0));
    assert_eq!(d.vkbd_xy(false), (1, 2));
    assert_eq!(b.ipc, Some(b"1 2".to_vec()));
}

#[test]
fn same_cell_publishes_nothing() {
    let mut d = Daemon::new(M, state(&[(ABS_HAT0X, -M), (ABS_HAT0Y, M)], &[]));
    let b = step(&mut d, state(&[(ABS_HAT0X, -M + 1), (ABS_HAT0Y, M)], &[]), vec![axis(ABS_HAT0X, -M + 1)]);
    assert!(b.ipc.is_none());
}

#[test]
fn pad_at_rest_is_no_cell_and_publishes_nothing() {
    let mut d = Daemon::new(M, state(&[], &[]));
    let b = step(&mut d, state(&[], &[]), vec![axis(ABS_HAT1X, 7)]);
    assert_eq!(d.vkbd_xy(false), NO_CELL);
    assert_eq!(d.vkbd_xy(true), NO_CELL);
    assert!(b.ipc.is_none());
}

#[test]
fn lifting_finger_publishes_no_cell() {
    let mut d = Daemon::new(M, state(&[(ABS_HAT0X, -M), (ABS_HAT0Y, M)], &[]));
    let b = step(&mut d, state(&[], &[]), vec![axis(ABS_HAT0X, 0), axis(ABS_HAT0Y, 0)]);
    let text = format!("{} {}", usize::MAX, usize::MAX);
    assert_eq!(b.ipc, Some(text.into_bytes()));
}

#[test]
fn right_stick_moves_pointer() {
    let mut d = Daemon::new(M, state(&[(ABS_HAT1X, 1000), (ABS_HAT1Y, 1000)], &[]));
    let s = state(&[(ABS_HAT1X, 1250), (ABS_HAT1Y, 1250)], &[]);
    let b = step(&mut d, s, vec![axis(ABS_HAT1X, 1250), axis(ABS_HAT1Y, 1250)]);
    assert_eq!(b.out, vec![rel(REL_X, 2), rel(REL_Y, -2)]);
}

#[test]
fn right_stick_delta_truncates_toward_zero() {
    let mut d = Daemon::new(M, state(&[(ABS_HAT1X, 1000), (ABS_HAT1Y, 1000)], &[]));
    let s = state(&[(ABS_HAT1X, 750), (ABS_HAT1Y, 901)], &[]);
    let b = step(&mut d, s, vec![axis(ABS_HAT1X, 750), axis(ABS_HAT1Y, 901)]);
    assert_eq!(b.out, vec![rel(REL_X, -2), rel(REL_Y, 0)]);
}

#[test]
fn right_stick_zero_edge_moves_nothing() {
    let mut d = Daemon::new(M, state(&[(ABS_HAT1Y, 900)], &[]));
    let s = state(&[(ABS_HAT1X, 3000), (ABS_HAT1Y, 0)], &[]);
    let b = step(&mut d, s, vec![axis(ABS_HAT1X, 3000), axis(ABS_HAT1Y, 0)]);
    assert_eq!(b.out, vec![rel(REL_X, 0), rel(REL_Y, 0)]);
}

#[test]
fn left_stick_sets_scroll_and_emits_nothing() {
    let mut d = Daemon::new(M, state(&[], &[]));
    let s = state(&[(ABS_X, -300), (ABS_Y, 900)], &[]);
    let b = step(&mut d, s, vec![axis(ABS_X, -300), axis(ABS_Y, 900)]);
    assert!(b.out.is_empty());
    assert_eq!(b.scroll, Some((-300, 900)));
    assert_eq!(d.scroll_xy, (-300, 900));
}

#[test]
fn pass_through_keys_keep_value() {
    let mut d = Daemon::new(M, state(&[], &[]));
    let b = step(&mut d, state(&[], &[BTN_SELECT]), vec![key(BTN_SELECT, 1), key(BTN_SELECT, 2)]);
    assert_eq!(b.out, vec![key(KEY_TAB, 1), key(KEY_TAB, 2)]);
}

#[test]
fn unmapped_events_are_dropped() {
    let mut d = Daemon::new(M, state(&[], &[]));
    let b = step(&mut d, state(&[], &[]), vec![key(0x2ff, 1), rel(REL_X, 3), Event { kind: 0, code: 0, value: 0 }]);
    assert!(b.out.is_empty());
    assert!(b.scroll.is_none());
}
