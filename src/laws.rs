//! Properties of the remapper that relate several events, calls or states.
use vstd::prelude::*;
use crate::codes::{ABS_HAT0X, ABS_HAT0Y, BTN_THUMB, EV_KEY, REL_HWHEEL};
use crate::event::{key_event, rel_event, Event};
use crate::position::{cell_of, NO_CELL};
use crate::remap::{dpad_keys, face_layer, rel_delta, tap, toggle_mode, Daemon};
use crate::scroll::{deflected, tick_events};

verus! {

/// Every event that one event of a batch emits is emitted by the batch.
pub proof fn lemma_batch_keeps_each_emission(d: Daemon, events: Seq<Event>, i: int, x: Event)
    requires
        0 <= i < events.len(),
        d.remap_spec(events[i]).contains(x),
    ensures
        d.remap_all(events).contains(x),
    decreases events.len(),
{
    let prefix = events.drop_last();
    let last = d.remap_spec(events.last());
    if i == events.len() - 1 {
        let k = choose|k: int| 0 <= k < last.len() && last[k] == x;
        assert((d.remap_all(prefix) + last)[d.remap_all(prefix).len() + k] == x);
    } else {
        assert(prefix[i] == events[i]);
        lemma_batch_keeps_each_emission(d, prefix, i, x);
        let k = choose|k: int| 0 <= k < d.remap_all(prefix).len() && d.remap_all(prefix)[k] == x;
        assert((d.remap_all(prefix) + last)[k] == x);
    }
}

/// A batch in which a D-pad button is released emits the release of both
/// keys that button stands for, whatever the modifier did meanwhile.
pub proof fn lemma_dpad_release_releases_both(d: Daemon, events: Seq<Event>, i: int)
    requires
        0 <= i < events.len(),
        events[i].kind == EV_KEY,
        dpad_keys(events[i].code) is Some,
        events[i].value == 0,
    ensures
        ({
            let keys = dpad_keys(events[i].code).unwrap();
            &&& d.remap_spec(events[i]) == seq![key_event(keys.1, 0), key_event(keys.0, 0)]
            &&& d.remap_all(events).contains(key_event(keys.0, 0))
            &&& d.remap_all(events).contains(key_event(keys.1, 0))
        }),
{
    let keys = dpad_keys(events[i].code).unwrap();
    let out = d.remap_spec(events[i]);
    assert(out[0] == key_event(keys.1, 0));
    assert(out[1] == key_event(keys.0, 0));
    lemma_batch_keeps_each_emission(d, events, i, key_event(keys.0, 0));
    lemma_batch_keeps_each_emission(d, events, i, key_event(keys.1, 0));
}

/// A face button that is pressed or repeats emits a whole tap: a press and
/// the release of the same key, never one without the other.
pub proof fn lemma_face_press_is_tap(d: Daemon, e: Event)
    requires
        e.kind == EV_KEY,
        face_layer(e.code) is Some,
        e.value != 0,
    ensures
        exists|k: u16| d.remap_spec(e) == tap(k),
{
    let f = face_layer(e.code).unwrap();
    assert(dpad_keys(e.code) is None);
    assert(crate::remap::plain_key(e.code) is None);
    if d.cell_spec(false) != NO_CELL {
        let c = d.cell_spec(false);
        let k = crate::layout::layout_key_spec(c.1 as int, c.0 as int, f.0 as int);
        assert(d.remap_spec(e) == tap(k));
    } else {
        assert(d.remap_spec(e) == tap(f.1));
    }
}

/// Toggling the mode twice restores the mode; from desktop mode it leaves the
/// device captured again with the scroll coordinates at rest.
pub proof fn lemma_toggle_twice(kbd_mode: bool, scroll_xy: (i32, i32))
    ensures
        ({
            let once = toggle_mode(kbd_mode, scroll_xy);
            let twice = toggle_mode(once.0, once.1);
            &&& twice.0 == kbd_mode
            &&& kbd_mode ==> twice.1 == (0i32, 0i32)
        }),
{
}

/// With the finger off the pad before and after a batch, the cell is
/// `NO_CELL` both times, so nothing is published.
pub proof fn lemma_rest_publishes_nothing(d: Daemon)
    requires
        d.cache_in.abs_at(ABS_HAT0X) == 0,
        d.cache_in.abs_at(ABS_HAT0Y) == 0,
        d.state_in.abs_at(ABS_HAT0X) == 0,
        d.state_in.abs_at(ABS_HAT0Y) == 0,
    ensures
        d.cell_spec(true) == NO_CELL,
        d.cell_spec(false) == NO_CELL,
{
}

/// A pad reading of `(0, 0)` is no cell.
pub proof fn lemma_rest_is_no_cell(m: int)
    ensures
        cell_of(m, 0, 0) == NO_CELL,
{
}

/// An axis that has just been touched or released moves nothing.
pub proof fn lemma_zero_edge(new: int, prev: int, invert: bool)
    requires
        new == 0 || prev == 0,
    ensures
        rel_delta(new, prev, invert) == 0,
{
}

/// While the stick is deflected horizontally, every tick emits exactly one
/// horizontal wheel event, of the sign of the deflection; while neither axis
/// is deflected, a tick emits nothing.
pub proof fn lemma_scroll_cadence(x: int, y: int, resolution: int)
    ensures
        deflected(x, resolution) ==> {
            let evs = tick_events(x, y, resolution);
            &&& evs.len() >= 1
            &&& evs[0] == rel_event(REL_HWHEEL, if x > 0 { 1i32 } else { -1i32 })
            &&& forall|j: int| 1 <= j < evs.len() ==> #[trigger] evs[j].code != REL_HWHEEL
        },
        !deflected(x, resolution) && !deflected(y, resolution) ==> tick_events(
            x,
            y,
            resolution,
        ).len() == 0,
{
    let evs = tick_events(x, y, resolution);
    if deflected(x, resolution) {
        assert(evs[0] == rel_event(REL_HWHEEL, if x > 0 { 1i32 } else { -1i32 }));
    }
}

/// Pressing the toggle button while any other key is held does not toggle
/// the mode.
pub proof fn lemma_chord_gating(d: Daemon, events: Seq<Event>, other: u16)
    requires
        other != BTN_THUMB,
        d.state_in.held().contains(other),
    ensures
        !d.toggles(events),
{
    assert(!set![BTN_THUMB].contains(other));
}

} // verus!
