//! The keys the keyboard and mouse device advertises: every key the
//! remapper can emit.
use vstd::prelude::*;
use crate::codes::{
    BTN_LEFT, BTN_MIDDLE, BTN_RIGHT, EV_KEY, KEY_BACKSPACE, KEY_COMPOSE, KEY_DELETE, KEY_DOWN, KEY_END, KEY_ENTER, KEY_ESC, KEY_F1, KEY_F2, KEY_F3, KEY_F4, KEY_F5, KEY_F6, KEY_F7, KEY_F8, KEY_HOME, KEY_LEFT, KEY_LEFTALT, KEY_LEFTCTRL, KEY_LEFTMETA, KEY_LEFTSHIFT, KEY_PAGEDOWN, KEY_PAGEUP, KEY_RIGHT, KEY_RIGHTALT, KEY_SPACE, KEY_TAB, KEY_UNKNOWN, KEY_UP,
};
use crate::event::Event;
use crate::layout::{layout_key_spec, vkbd_cell};
use crate::position::lemma_cell_in_grid;
use crate::remap::{dpad_keys, face_layer, plain_key, Daemon};

verus! {

/// A key of the trackpad keyboard layout.
pub open spec fn is_layout_key(k: u16) -> bool {
    exists|i: int, j: int, l: int|
        0 <= i < 4 && 0 <= j < 2 && 0 <= l < 7 && #[trigger] layout_key_spec(i, j, l) == k
}

/// A key emitted outside the layout: arrows, navigation, modifiers, the
/// fallback keys, function keys and mouse buttons.
pub open spec fn is_extra_key(k: u16) -> bool {
    k == KEY_LEFTMETA
        || k == KEY_UP
        || k == KEY_DOWN
        || k == KEY_LEFT
        || k == KEY_RIGHT
        || k == KEY_LEFTSHIFT
        || k == KEY_LEFTCTRL
        || k == KEY_RIGHTALT
        || k == KEY_LEFTALT
        || k == KEY_TAB
        || k == KEY_COMPOSE
        || k == KEY_PAGEUP
        || k == KEY_PAGEDOWN
        || k == KEY_HOME
        || k == KEY_END
        || k == KEY_ENTER
        || k == KEY_ESC
        || k == KEY_BACKSPACE
        || k == KEY_SPACE
        || k == KEY_DELETE
        || k == KEY_F1
        || k == KEY_F2
        || k == KEY_F3
        || k == KEY_F4
        || k == KEY_F5
        || k == KEY_F6
        || k == KEY_F7
        || k == KEY_F8
        || k == BTN_RIGHT
        || k == BTN_LEFT
        || k == BTN_MIDDLE
}

/// A key the keyboard and mouse device advertises.
pub open spec fn is_output_key(k: u16) -> bool {
    is_layout_key(k) || is_extra_key(k)
}

/// Every key event that `remap` emits, but for the placeholder key, is of an
/// advertised key.
pub proof fn lemma_emitted_keys_are_advertised(d: Daemon, e: Event, x: Event)
    requires
        d.wf(),
        d.remap_spec(e).contains(x),
        x.kind == EV_KEY,
        x.code != KEY_UNKNOWN,
    ensures
        is_output_key(x.code),
{
    let out = d.remap_spec(e);
    let t = choose|t: int| 0 <= t < out.len() && out[t] == x;
    if e.kind == EV_KEY {
        if dpad_keys(e.code) is Some {
            assert(is_extra_key(x.code));
        } else if plain_key(e.code) is Some {
            assert(is_extra_key(x.code));
        } else if face_layer(e.code) is Some {
            let f = face_layer(e.code).unwrap();
            let cell = d.cell_spec(false);
            if cell != crate::position::NO_CELL && e.value != 0 {
                let s = d.state_in;
                let hx = s.abs_at(crate::codes::ABS_HAT0X) as int;
                let hy = s.abs_at(crate::codes::ABS_HAT0Y) as int;
                lemma_cell_in_grid(d.hat_max as int, hx, hy);
                let k = layout_key_spec(cell.1 as int, cell.0 as int, f.0 as int);
                assert(x.code == k);
                assert(is_layout_key(x.code));
            } else {
                assert(is_extra_key(x.code));
            }
        }
    }
}

fn push_key(r: &mut Vec<u16>, k: u16)
    ensures
        final(r)@ == old(r)@.push(k),
        final(r)@.contains(k),
        forall|y: u16| old(r)@.contains(y) ==> #[trigger] final(r)@.contains(y),
        forall|y: u16| #[trigger] final(r)@.contains(y) ==> old(r)@.contains(y) || y == k,
{
    r.push(k);
    assert forall|y: u16| #[trigger] final(r)@.contains(y) implies old(r)@.contains(y) || y == k by {
        let t = choose|t: int| 0 <= t < final(r)@.len() && final(r)@[t] == y;
        if t < old(r)@.len() {
            assert(old(r)@[t] == y);
        }
    }
    assert(final(r)@[final(r)@.len() - 1] == k);
    assert forall|y: u16| old(r)@.contains(y) implies #[trigger] final(r)@.contains(y) by {
        let t = choose|t: int| 0 <= t < old(r)@.len() && old(r)@[t] == y;
        assert(final(r)@[t] == y);
    }
}

/// The keys the keyboard and mouse device advertises: the layout keys and
/// every other key the remapper emits, but for the placeholder key.
pub fn output_keys() -> (r: Vec<u16>)
    ensures
        forall|k: u16| #[trigger] r@.contains(k) <==> is_output_key(k),
        forall|d: Daemon, e: Event, x: Event|
            d.wf() && #[trigger] d.remap_spec(e).contains(x) && x.kind == EV_KEY && x.code
                != KEY_UNKNOWN ==> r@.contains(x.code),
{
    let mut r: Vec<u16> = Vec::new();
    let mut i: usize = 0;
    while i < 4
        invariant
            i <= 4,
            forall|y: u16| #[trigger] r@.contains(y) ==> is_output_key(y),
            forall|i2: int, j2: int, l2: int|
                0 <= i2 < i && 0 <= j2 < 2 && 0 <= l2 < 7 ==> r@.contains(
                    #[trigger] layout_key_spec(i2, j2, l2),
                ),
        decreases 4 - i,
    {
        let mut j: usize = 0;
        while j < 2
            invariant
                i < 4,
                j <= 2,
                forall|y: u16| #[trigger] r@.contains(y) ==> is_output_key(y),
                forall|i2: int, j2: int, l2: int|
                    0 <= l2 < 7 && ((0 <= i2 < i && 0 <= j2 < 2) || (i2 == i && 0 <= j2 < j))
                        ==> r@.contains(#[trigger] layout_key_spec(i2, j2, l2)),
            decreases 2 - j,
        {
            let cell = vkbd_cell(i, j);
            let mut l: usize = 0;
            while l < 7
                invariant
                    i < 4,
                    j < 2,
                    l <= 7,
                    cell@ == crate::layout::cell_keys(i as int, j as int),
                    forall|y: u16| #[trigger] r@.contains(y) ==> is_output_key(y),
                    forall|i2: int, j2: int, l2: int|
                        0 <= l2 < 7 && ((0 <= i2 < i && 0 <= j2 < 2) || (i2 == i && 0 <= j2 < j)
                            || (i2 == i && j2 == j && l2 < l)) ==> r@.contains(
                            #[trigger] layout_key_spec(i2, j2, l2),
                        ),
                decreases 7 - l,
            {
                let k = cell[l];
                assert(k == layout_key_spec(i as int, j as int, l as int));
                assert(is_layout_key(k));
                push_key(&mut r, k);
                l = l + 1;
            }
            j = j + 1;
        }
        i = i + 1;
    }
    let ghost base = r@;
    push_key(&mut r, KEY_LEFTMETA);
    push_key(&mut r, KEY_UP);
    push_key(&mut r, KEY_DOWN);
    push_key(&mut r, KEY_LEFT);
    push_key(&mut r, KEY_RIGHT);
    push_key(&mut r, KEY_LEFTSHIFT);
    push_key(&mut r, KEY_LEFTCTRL);
    push_key(&mut r, KEY_RIGHTALT);
    push_key(&mut r, KEY_LEFTALT);
    push_key(&mut r, KEY_TAB);
    push_key(&mut r, KEY_COMPOSE);
    push_key(&mut r, KEY_PAGEUP);
    push_key(&mut r, KEY_PAGEDOWN);
    push_key(&mut r, KEY_HOME);
    push_key(&mut r, KEY_END);
    push_key(&mut r, KEY_ENTER);
    push_key(&mut r, KEY_ESC);
    push_key(&mut r, KEY_BACKSPACE);
    push_key(&mut r, KEY_SPACE);
    push_key(&mut r, KEY_DELETE);
    push_key(&mut r, KEY_F1);
    push_key(&mut r, KEY_F2);
    push_key(&mut r, KEY_F3);
    push_key(&mut r, KEY_F4);
    push_key(&mut r, KEY_F5);
    push_key(&mut r, KEY_F6);
    push_key(&mut r, KEY_F7);
    push_key(&mut r, KEY_F8);
    push_key(&mut r, BTN_RIGHT);
    push_key(&mut r, BTN_LEFT);
    push_key(&mut r, BTN_MIDDLE);
    assert forall|k: u16| #[trigger] r@.contains(k) implies is_output_key(k) by {
        let t = choose|t: int| 0 <= t < r@.len() && r@[t] == k;
        if t >= base.len() {
            assert(is_extra_key(k));
        } else {
            assert(base.contains(k));
        }
    }
    assert forall|k: u16| is_output_key(k) implies #[trigger] r@.contains(k) by {
        if is_layout_key(k) {
            let (i2, j2, l2) = choose|i2: int, j2: int, l2: int|
                0 <= i2 < 4 && 0 <= j2 < 2 && 0 <= l2 < 7 && #[trigger] layout_key_spec(i2, j2, l2) == k;
            assert(base.contains(layout_key_spec(i2, j2, l2)));
        }
    }
    assert forall|d: Daemon, e: Event, x: Event|
        d.wf() && #[trigger] d.remap_spec(e).contains(x) && x.kind == EV_KEY && x.code
            != KEY_UNKNOWN implies r@.contains(x.code) by {
        lemma_emitted_keys_are_advertised(d, e, x);
    }
    r
}

} // verus!
