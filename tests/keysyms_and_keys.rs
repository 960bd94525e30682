use sdmap::codes::{
    BTN_MIDDLE, KEY_1, KEY_2, KEY_ENTER, KEY_F8, KEY_LEFTSHIFT, KEY_PAGEDOWN, KEY_RIGHTALT,
    KEY_TAB, KEY_UNKNOWN,
};
use sdmap::keysym::{keysyms_layout, modifier_keys, needs_lookup, xkb_keycode, LOOKUPS};
use sdmap::output::output_keys;

fn numbered_lookups() -> Vec<(String, String)> {
    (0..LOOKUPS).map(|i| (format!("g{i}"), String::new())).collect()
}

#[test]
fn table_entries_follow_lookup_order() {
    let table = keysyms_layout(&numbered_lookups());
    assert_eq!(table[0][0][0][0], "g0");
    assert_eq!(table[0][0][0][2], "g2");
    assert_eq!(table[0][1][0][0], "g21");
    assert_eq!(table[1][0][3][1], "g52");
    assert_eq!(table[3][1][6][2], "g167");
}

#[test]
fn table_renders_dead_keys_and_names() {
    let mut lookups = numbered_lookups();
    lookups[0] = (String::new(), "dead_circumflex".to_string());
    lookups[1] = (String::new(), "Escape".to_string());
    let table = keysyms_layout(&lookups);
    assert_eq!(table[0][0][0][0], "^");
    assert_eq!(table[0][0][0][1], "Escape");
}

#[test]
fn modifier_sets_are_none_shift_altgr() {
    assert!(modifier_keys(0).is_empty());
    assert_eq!(modifier_keys(1), vec![KEY_LEFTSHIFT]);
    assert_eq!(modifier_keys(2), vec![KEY_RIGHTALT]);
}

#[test]
fn placeholder_key_is_not_looked_up() {
    assert!(!needs_lookup(KEY_UNKNOWN));
    assert!(needs_lookup(KEY_1));
    assert_eq!(xkb_keycode(KEY_1), 10);
}

#[test]
fn advertised_keys_cover_layout_and_rules() {
    let keys = output_keys();
    for k in [KEY_1, KEY_2, KEY_F8, KEY_ENTER, KEY_TAB, KEY_PAGEDOWN, BTN_MIDDLE, KEY_RIGHTALT] {
        assert!(keys.contains(&k), "missing {k}");
    }
    assert!(!keys.contains(&KEY_UNKNOWN));
}
