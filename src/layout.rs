//! The trackpad keyboard: a grid of rows and columns, each cell holding one
//! key per layer.
use vstd::prelude::*;
use crate::codes::{
    KEY_0, KEY_1, KEY_102ND, KEY_2, KEY_3, KEY_4, KEY_5, KEY_6, KEY_7, KEY_8, KEY_9, KEY_A, KEY_APOSTROPHE, KEY_B, KEY_BACKSLASH, KEY_C, KEY_COMMA, KEY_D, KEY_DOT, KEY_E, KEY_EQUAL, KEY_F, KEY_F1, KEY_F2, KEY_F3, KEY_F4, KEY_F5, KEY_F6, KEY_F7, KEY_F8, KEY_G, KEY_GRAVE, KEY_H, KEY_I, KEY_J, KEY_K, KEY_L, KEY_LEFTBRACE, KEY_M, KEY_MINUS, KEY_N, KEY_O, KEY_P, KEY_Q, KEY_R, KEY_RIGHTBRACE, KEY_S, KEY_SEMICOLON, KEY_SLASH, KEY_T, KEY_U, KEY_V, KEY_W, KEY_X, KEY_Y, KEY_Z,
};

verus! {

/// Number of rows of the trackpad keyboard; row 0 is the top row.
pub const VKBD_ROWS: usize = 4;
/// Number of columns of the trackpad keyboard.
pub const VKBD_COLS: usize = 2;
/// Number of layers of each cell, one per face button.
pub const VKBD_LAYERS: usize = 7;

/// The keys of cell `(row, col)`, one per layer.
pub open spec fn cell_keys(row: int, col: int) -> Seq<u16> {
    if row == 0 && col == 0 {
        seq![KEY_1, KEY_2, KEY_3, KEY_4, KEY_5, KEY_MINUS, KEY_F1]
    } else if row == 0 {
        seq![KEY_6, KEY_7, KEY_8, KEY_9, KEY_0, KEY_EQUAL, KEY_F2]
    } else if row == 1 && col == 0 {
        seq![KEY_Q, KEY_W, KEY_E, KEY_R, KEY_T, KEY_LEFTBRACE, KEY_F3]
    } else if row == 1 {
        seq![KEY_Y, KEY_U, KEY_I, KEY_O, KEY_P, KEY_RIGHTBRACE, KEY_F4]
    } else if row == 2 && col == 0 {
        seq![KEY_A, KEY_S, KEY_D, KEY_F, KEY_G, KEY_APOSTROPHE, KEY_F5]
    } else if row == 2 {
        seq![KEY_H, KEY_J, KEY_K, KEY_L, KEY_SEMICOLON, KEY_BACKSLASH, KEY_F6]
    } else if col == 0 {
        seq![KEY_Z, KEY_X, KEY_C, KEY_V, KEY_B, KEY_GRAVE, KEY_F7]
    } else {
        seq![KEY_N, KEY_M, KEY_COMMA, KEY_DOT, KEY_SLASH, KEY_102ND, KEY_F8]
    }
}

/// The key at `layer` of cell `(row, col)`.
pub open spec fn layout_key_spec(row: int, col: int, layer: int) -> u16 {
    cell_keys(row, col)[layer]
}

/// The keys of cell `(row, col)`, one per layer.
pub fn vkbd_cell(row: usize, col: usize) -> (r: [u16; 7])
    requires
        row < VKBD_ROWS,
        col < VKBD_COLS,
    ensures
        r@ == cell_keys(row as int, col as int),
{
    let r: [u16; 7] = if row == 0 && col == 0 {
        [KEY_1, KEY_2, KEY_3, KEY_4, KEY_5, KEY_MINUS, KEY_F1]
    } else if row == 0 {
        [KEY_6, KEY_7, KEY_8, KEY_9, KEY_0, KEY_EQUAL, KEY_F2]
    } else if row == 1 && col == 0 {
        [KEY_Q, KEY_W, KEY_E, KEY_R, KEY_T, KEY_LEFTBRACE, KEY_F3]
    } else if row == 1 {
        [KEY_Y, KEY_U, KEY_I, KEY_O, KEY_P, KEY_RIGHTBRACE, KEY_F4]
    } else if row == 2 && col == 0 {
        [KEY_A, KEY_S, KEY_D, KEY_F, KEY_G, KEY_APOSTROPHE, KEY_F5]
    } else if row == 2 {
        [KEY_H, KEY_J, KEY_K, KEY_L, KEY_SEMICOLON, KEY_BACKSLASH, KEY_F6]
    } else if col == 0 {
        [KEY_Z, KEY_X, KEY_C, KEY_V, KEY_B, KEY_GRAVE, KEY_F7]
    } else {
        [KEY_N, KEY_M, KEY_COMMA, KEY_DOT, KEY_SLASH, KEY_102ND, KEY_F8]
    };
    assert(r@ =~= cell_keys(row as int, col as int));
    r
}

/// The key at `layer` of cell `(row, col)`.
pub fn vkbd_key(row: usize, col: usize, layer: usize) -> (k: u16)
    requires
        row < VKBD_ROWS,
        col < VKBD_COLS,
        layer < VKBD_LAYERS,
    ensures
        k == layout_key_spec(row as int, col as int, layer as int),
{
    let cell = vkbd_cell(row, col);
    cell[layer]
}

} // verus!
