//! The trackpad keyboard rendered under a keymap: for every key of the
//! layout, its glyph alone, with Shift and with AltGr. The keymap is asked
//! once per key and modifier set; this module orders those questions and
//! turns the answers into the table.
use vstd::prelude::*;
use crate::codes::{KEY_LEFTSHIFT, KEY_RIGHTALT, KEY_UNKNOWN};
use crate::glyph::{key_glyph, keysym_glyph};
use crate::layout::{layout_key_spec, vkbd_key};

verus! {

/// Modifier sets a key is rendered with: none, Shift, AltGr.
pub const MOD_SETS: usize = 3;

/// Number of keymap answers that make the table: one per row, column,
/// layer and modifier set.
pub const LOOKUPS: usize = 168;

/// Offset from kernel key codes to keymap key codes.
pub const EVDEV_OFFSET: u32 = 8;

/// Where the answer for `(row, col, layer, modifier set)` stands among the
/// lookups: rows, then columns, then layers, then modifier sets.
pub open spec fn lookup_index(row: int, col: int, layer: int, m: int) -> int {
    row * 42 + col * 21 + layer * 3 + m
}

/// The modifier keys held for modifier set `m`.
pub open spec fn modifier_spec(m: int) -> Seq<u16> {
    if m == 0 {
        seq![]
    } else if m == 1 {
        seq![KEY_LEFTSHIFT]
    } else {
        seq![KEY_RIGHTALT]
    }
}

/// The modifier keys held for modifier set `m`: none, Shift or AltGr.
pub fn modifier_keys(m: usize) -> (r: Vec<u16>)
    requires
        m < MOD_SETS,
    ensures
        r@ == modifier_spec(m as int),
{
    let mut r: Vec<u16> = Vec::new();
    if m == 1 {
        r.push(KEY_LEFTSHIFT);
    } else if m == 2 {
        r.push(KEY_RIGHTALT);
    }
    assert(r@ =~= modifier_spec(m as int));
    r
}

/// The keymap key code of kernel key `key`.
pub fn xkb_keycode(key: u16) -> (r: u32)
    ensures
        r == key as u32 + EVDEV_OFFSET,
{
    key as u32 + EVDEV_OFFSET
}

/// Whether the keymap is to be asked about `key`; the placeholder key
/// renders as nothing whatever the keymap says.
pub fn needs_lookup(key: u16) -> (r: bool)
    ensures
        r == (key != KEY_UNKNOWN),
{
    key != KEY_UNKNOWN
}

/// The glyph table entry for answer `idx`.
fn entry(lookups: &Vec<(String, String)>, key: u16, idx: usize) -> (r: String)
    requires
        idx < lookups@.len(),
    ensures
        r@ == key_glyph(key, lookups@[idx as int].0@, lookups@[idx as int].1@),
{
    keysym_glyph(key, lookups[idx].0.as_str(), lookups[idx].1.as_str())
}

/// The glyphs of the key at `(row, col, layer)` for the three modifier sets.
fn key_glyphs(lookups: &Vec<(String, String)>, row: usize, col: usize, layer: usize) -> (r: [String; 3])
    requires
        row < 4,
        col < 2,
        layer < 7,
        lookups@.len() == LOOKUPS,
    ensures
        forall|m: int|
            0 <= m < 3 ==> (#[trigger] r@[m])@ == key_glyph(
                layout_key_spec(row as int, col as int, layer as int),
                lookups@[lookup_index(row as int, col as int, layer as int, m)].0@,
                lookups@[lookup_index(row as int, col as int, layer as int, m)].1@,
            ),
{
    let key = vkbd_key(row, col, layer);
    let base = row * 42 + col * 21 + layer * 3;
    let g0 = entry(lookups, key, base);
    let g1 = entry(lookups, key, base + 1);
    let g2 = entry(lookups, key, base + 2);
    let r = [g0, g1, g2];
    assert(r@[0] == g0 && r@[1] == g1 && r@[2] == g2);
    r
}

/// The glyphs of every layer of cell `(row, col)`.
fn cell_glyphs(lookups: &Vec<(String, String)>, row: usize, col: usize) -> (r: [[String; 3]; 7])
    requires
        row < 4,
        col < 2,
        lookups@.len() == LOOKUPS,
    ensures
        forall|k: int, m: int|
            0 <= k < 7 && 0 <= m < 3 ==> (#[trigger] r@[k]@[m])@ == key_glyph(
                layout_key_spec(row as int, col as int, k),
                lookups@[lookup_index(row as int, col as int, k, m)].0@,
                lookups@[lookup_index(row as int, col as int, k, m)].1@,
            ),
{
    let l0 = key_glyphs(lookups, row, col, 0);
    let l1 = key_glyphs(lookups, row, col, 1);
    let l2 = key_glyphs(lookups, row, col, 2);
    let l3 = key_glyphs(lookups, row, col, 3);
    let l4 = key_glyphs(lookups, row, col, 4);
    let l5 = key_glyphs(lookups, row, col, 5);
    let l6 = key_glyphs(lookups, row, col, 6);
    let r = [l0, l1, l2, l3, l4, l5, l6];
    assert(r@[0] == l0 && r@[1] == l1 && r@[2] == l2 && r@[3] == l3);
    assert(r@[4] == l4 && r@[5] == l5 && r@[6] == l6);
    r
}

/// The trackpad keyboard as glyphs. `lookups` holds, in the order of
/// `lookup_index`, what the keymap answered for each layout key with each
/// modifier set: the text it types and its symbol name. Entry
/// `[row][col][layer][m]` renders the layout key at `(row, col, layer)` from
/// that answer.
pub fn keysyms_layout(lookups: &Vec<(String, String)>) -> (r: [[[[String; 3]; 7]; 2]; 4])
    requires
        lookups@.len() == LOOKUPS,
    ensures
        forall|i: int, j: int, k: int, m: int|
            0 <= i < 4 && 0 <= j < 2 && 0 <= k < 7 && 0 <= m < 3 ==> (#[trigger] r@[i]@[j]@[k]@[m])@
                == key_glyph(
                layout_key_spec(i, j, k),
                lookups@[lookup_index(i, j, k, m)].0@,
                lookups@[lookup_index(i, j, k, m)].1@,
            ),
{
    let c00 = cell_glyphs(lookups, 0, 0);
    let c01 = cell_glyphs(lookups, 0, 1);
    let c10 = cell_glyphs(lookups, 1, 0);
    let c11 = cell_glyphs(lookups, 1, 1);
    let c20 = cell_glyphs(lookups, 2, 0);
    let c21 = cell_glyphs(lookups, 2, 1);
    let c30 = cell_glyphs(lookups, 3, 0);
    let c31 = cell_glyphs(lookups, 3, 1);
    let r0 = [c00, c01];
    let r1 = [c10, c11];
    let r2 = [c20, c21];
    let r3 = [c30, c31];
    assert(r0@[0] == c00 && r0@[1] == c01 && r1@[0] == c10 && r1@[1] == c11);
    assert(r2@[0] == c20 && r2@[1] == c21 && r3@[0] == c30 && r3@[1] == c31);
    let r = [r0, r1, r2, r3];
    assert(r@[0] == r0 && r@[1] == r1 && r@[2] == r2 && r@[3] == r3);
    r
}

} // verus!
