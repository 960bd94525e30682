//! The scroll worker's decision at each tick: park while the stick is near
//! its centre, otherwise one wheel tick per deflected axis.
use vstd::prelude::*;
use crate::codes::{EV_REL, REL_HWHEEL, REL_WHEEL};
use crate::event::{rel_event, Event};
use crate::position::abs_int;

verus! {

/// Milliseconds between two ticks of the scroll worker.
pub const TICK_MS: u64 = 100;

/// Whether a stick coordinate is deflected far enough to scroll.
pub open spec fn deflected(v: int, resolution: int) -> bool {
    abs_int(v) >= resolution
}

/// The wheel ticks of one tick at stick `(x, y)`: a horizontal tick of the
/// sign of `x`, then a vertical tick of the opposite sign of `y`, each only
/// when its axis is deflected.
pub open spec fn tick_events(x: int, y: int, resolution: int) -> Seq<Event> {
    let h: Seq<Event> = if deflected(x, resolution) {
        seq![rel_event(REL_HWHEEL, if x > 0 { 1i32 } else { -1i32 })]
    } else {
        seq![]
    };
    let v: Seq<Event> = if deflected(y, resolution) {
        seq![rel_event(REL_WHEEL, if y > 0 { -1i32 } else { 1i32 })]
    } else {
        seq![]
    };
    h + v
}

/// The work of one tick at stick `(x, y)`: `None` when neither axis is
/// deflected (the worker parks until new coordinates come), otherwise the
/// wheel events to emit before sleeping one tick.
pub fn scroll_tick(x: i32, y: i32, resolution: i32) -> (r: Option<Vec<Event>>)
    requires
        resolution > 0,
    ensures
        r is None <==> !deflected(x as int, resolution as int) && !deflected(
            y as int,
            resolution as int,
        ),
        r matches Some(evs) ==> evs@ == tick_events(x as int, y as int, resolution as int),
{
    let ax: i64 = if x < 0 {
        -(x as i64)
    } else {
        x as i64
    };
    let ay: i64 = if y < 0 {
        -(y as i64)
    } else {
        y as i64
    };
    let res = resolution as i64;
    if ax < res && ay < res {
        return None;
    }
    let mut evs: Vec<Event> = Vec::new();
    if ax >= res {
        evs.push(Event { kind: EV_REL, code: REL_HWHEEL, value: if x > 0 { 1 } else { -1 } });
    }
    if ay >= res {
        evs.push(Event { kind: EV_REL, code: REL_WHEEL, value: if y > 0 { -1 } else { 1 } });
    }
    assert(evs@ =~= tick_events(x as int, y as int, resolution as int));
    Some(evs)
}

} // verus!
