use sdmap::codes::{KEY_1, KEY_102ND, KEY_F8, KEY_UNKNOWN, KEY_A};
use sdmap::glyph::{keysym_glyph, pango_escape};
use sdmap::layout::{vkbd_cell, vkbd_key};
use sdmap::position::{cell_bytes, vkbd_cell_at, NO_CELL};

#[test]
fn layout_corners() {
    assert_eq!(vkbd_key(0, 0, 0), KEY_1);
    assert_eq!(vkbd_key(3, 1, 6), KEY_F8);
    assert_eq!(vkbd_key(3, 1, 5), KEY_102ND);
    assert_eq!(vkbd_cell(2, 0)[0], KEY_A);
}

#[test]
fn every_cell_reachable_on_small_pad() {
    let m = 2;
    let mut seen = vec![];
    for x in -m..=m {
        for y in -m..=m {
            let c = vkbd_cell_at(m, x, y);
            if x == 0 && y == 0 {
                assert_eq!(c, NO_CELL);
            } else {
                assert!(c.0 < 2 && c.1 < 4);
                if !seen.contains(&c) {
                    seen.push(c);
                }
            }
        }
    }
    assert_eq!(seen.len(), 8);
}

#[test]
fn pad_edges_stay_in_grid() {
    let m = 32767;
    assert_eq!(vkbd_cell_at(m, m, -m), (1, 3));
    assert_eq!(vkbd_cell_at(m, -m, m), (0, 0));
    assert_eq!(vkbd_cell_at(m, i32::MIN, i32::MAX), (0, 3));
    assert_eq!(vkbd_cell_at(m, i32::MAX, i32::MIN), (1, 3));
    assert_eq!(vkbd_cell_at(m, 0, 1), (0, 1));
}

#[test]
fn cell_text_has_no_newline() {
    assert_eq!(cell_bytes((1, 2)), b"1 2".to_vec());
    assert_eq!(cell_bytes((0, 10)), b"0 10".to_vec());
    assert_eq!(cell_bytes(NO_CELL), format!("{} {}", usize::MAX, usize::MAX).into_bytes());
}

#[test]
fn markup_escapes_angle_brackets() {
    assert_eq!(pango_escape("<"), "&lt;");
    assert_eq!(pango_escape(">"), "&gt;");
    assert_eq!(pango_escape("a"), "a");
    assert_eq!(pango_escape("<<"), "<<");
}

#[test]
fn dead_keys_render_as_spacing_glyphs() {
    assert_eq!(keysym_glyph(KEY_1, "", "dead_circumflex"), "^");
    assert_eq!(keysym_glyph(KEY_1, "", "dead_acute"), "´");
    assert_eq!(keysym_glyph(KEY_1, "", "dead_grave"), "`");
    assert_eq!(keysym_glyph(KEY_1, "", "dead_diaeresis"), "¨");
    assert_eq!(keysym_glyph(KEY_1, "", "dead_belowdot"), ".");
}

#[test]
fn typed_text_wins_over_symbol_name() {
    assert_eq!(keysym_glyph(KEY_1, "&", "ampersand"), "&");
    assert_eq!(keysym_glyph(KEY_1, "", "Escape"), "Escape");
}

#[test]
fn placeholder_key_renders_nothing() {
    assert_eq!(keysym_glyph(KEY_UNKNOWN, "x", "x"), "");
}
