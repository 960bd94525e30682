//! The remapping engine: from a batch of controller events and the device
//! state around it to the keyboard and mouse events to emit, the mode to be
//! in, the scroll coordinates and the cell to publish.
use vstd::prelude::*;
use crate::codes::{
    ABS_HAT0X, ABS_HAT0Y, ABS_HAT1X, ABS_HAT1Y, ABS_X, ABS_Y, BTN_BASE, BTN_DPAD_DOWN,
    BTN_DPAD_LEFT, BTN_DPAD_RIGHT, BTN_DPAD_UP, BTN_EAST, BTN_LEFT, BTN_MIDDLE, BTN_NORTH,
    BTN_RIGHT, BTN_SELECT, BTN_SOUTH, BTN_START, BTN_THUMB, BTN_THUMBR, BTN_TL, BTN_TL2, BTN_TR,
    BTN_TR2, BTN_TRIGGER_HAPPY1, BTN_TRIGGER_HAPPY2, BTN_TRIGGER_HAPPY3, BTN_TRIGGER_HAPPY4,
    BTN_WEST, EV_ABS, EV_KEY, EV_REL, KEY_BACKSPACE, KEY_COMPOSE, KEY_DELETE, KEY_DOWN, KEY_END,
    KEY_ENTER, KEY_ESC, KEY_HOME, KEY_LEFT, KEY_LEFTALT, KEY_LEFTCTRL, KEY_LEFTMETA,
    KEY_LEFTSHIFT, KEY_PAGEDOWN, KEY_PAGEUP, KEY_RIGHT, KEY_RIGHTALT, KEY_SPACE, KEY_TAB,
    KEY_UNKNOWN, KEY_UP, REL_X, REL_Y,
};
use crate::event::{key_event, new_key, rel_event, DevState, Event};
use crate::layout::{layout_key_spec, vkbd_key};
use crate::position::{cell_bytes, cell_of, cell_text, vkbd_cell_at, NO_CELL};

verus! {

/// The two keys a D-pad button stands for: without and with the modifier.
pub open spec fn dpad_keys(code: u16) -> Option<(u16, u16)> {
    if code == BTN_DPAD_UP {
        Some((KEY_UP, KEY_PAGEUP))
    } else if code == BTN_DPAD_DOWN {
        Some((KEY_DOWN, KEY_PAGEDOWN))
    } else if code == BTN_DPAD_LEFT {
        Some((KEY_LEFT, KEY_HOME))
    } else if code == BTN_DPAD_RIGHT {
        Some((KEY_RIGHT, KEY_END))
    } else {
        None
    }
}

/// The key a button stands for when its value is passed through unchanged.
pub open spec fn plain_key(code: u16) -> Option<u16> {
    if code == BTN_SELECT {
        Some(KEY_TAB)
    } else if code == BTN_TL {
        Some(BTN_RIGHT)
    } else if code == BTN_TR {
        Some(BTN_LEFT)
    } else if code == BTN_TL2 {
        Some(BTN_MIDDLE)
    } else if code == BTN_TR2 {
        Some(KEY_LEFTMETA)
    } else if code == BTN_TRIGGER_HAPPY1 {
        Some(KEY_LEFTSHIFT)
    } else if code == BTN_TRIGGER_HAPPY3 {
        Some(KEY_LEFTCTRL)
    } else if code == BTN_TRIGGER_HAPPY2 {
        Some(KEY_RIGHTALT)
    } else if code == BTN_TRIGGER_HAPPY4 {
        Some(KEY_LEFTALT)
    } else {
        None
    }
}

/// The layer a face button selects and the key it stands for while no
/// finger is on the pad.
pub open spec fn face_layer(code: u16) -> Option<(usize, u16)> {
    if code == BTN_SOUTH {
        Some((0usize, KEY_ENTER))
    } else if code == BTN_EAST {
        Some((1usize, KEY_ESC))
    } else if code == BTN_WEST {
        Some((2usize, KEY_SPACE))
    } else if code == BTN_NORTH {
        Some((3usize, KEY_BACKSPACE))
    } else if code == BTN_START {
        Some((4usize, KEY_DELETE))
    } else if code == BTN_BASE {
        Some((5usize, KEY_COMPOSE))
    } else if code == BTN_THUMBR {
        Some((6usize, KEY_UNKNOWN))
    } else {
        None
    }
}

fn dpad_keys_of(code: u16) -> (r: Option<(u16, u16)>)
    ensures
        r == dpad_keys(code),
{
    if code == BTN_DPAD_UP {
        Some((KEY_UP, KEY_PAGEUP))
    } else if code == BTN_DPAD_DOWN {
        Some((KEY_DOWN, KEY_PAGEDOWN))
    } else if code == BTN_DPAD_LEFT {
        Some((KEY_LEFT, KEY_HOME))
    } else if code == BTN_DPAD_RIGHT {
        Some((KEY_RIGHT, KEY_END))
    } else {
        None
    }
}

fn plain_key_of(code: u16) -> (r: Option<u16>)
    ensures
        r == plain_key(code),
{
    if code == BTN_SELECT {
        Some(KEY_TAB)
    } else if code == BTN_TL {
        Some(BTN_RIGHT)
    } else if code == BTN_TR {
        Some(BTN_LEFT)
    } else if code == BTN_TL2 {
        Some(BTN_MIDDLE)
    } else if code == BTN_TR2 {
        Some(KEY_LEFTMETA)
    } else if code == BTN_TRIGGER_HAPPY1 {
        Some(KEY_LEFTSHIFT)
    } else if code == BTN_TRIGGER_HAPPY3 {
        Some(KEY_LEFTCTRL)
    } else if code == BTN_TRIGGER_HAPPY2 {
        Some(KEY_RIGHTALT)
    } else if code == BTN_TRIGGER_HAPPY4 {
        Some(KEY_LEFTALT)
    } else {
        None
    }
}

fn face_layer_of(code: u16) -> (r: Option<(usize, u16)>)
    ensures
        r == face_layer(code),
{
    if code == BTN_SOUTH {
        Some((0, KEY_ENTER))
    } else if code == BTN_EAST {
        Some((1, KEY_ESC))
    } else if code == BTN_WEST {
        Some((2, KEY_SPACE))
    } else if code == BTN_NORTH {
        Some((3, KEY_BACKSPACE))
    } else if code == BTN_START {
        Some((4, KEY_DELETE))
    } else if code == BTN_BASE {
        Some((5, KEY_COMPOSE))
    } else if code == BTN_THUMBR {
        Some((6, KEY_UNKNOWN))
    } else {
        None
    }
}

/// A press of `key` followed at once by its release.
pub open spec fn tap(key: u16) -> Seq<Event> {
    seq![key_event(key, 1), key_event(key, 0)]
}

/// What a D-pad event of `value` emits: a press of the key that `modifier`
/// selects, or otherwise a release of both keys.
pub open spec fn keymod_out(value: i32, modifier: bool, base: u16, alt: u16) -> Seq<Event> {
    if value == 1 {
        seq![key_event(if modifier { alt } else { base }, 1)]
    } else {
        seq![key_event(alt, 0), key_event(base, 0)]
    }
}

/// What a face-button event of `value` emits with the finger over `cell`.
pub open spec fn vkbd_out(value: i32, cell: (usize, usize), layer: usize, fallback: u16) -> Seq<
    Event,
> {
    if value == 0 {
        seq![]
    } else if cell != NO_CELL {
        tap(layout_key_spec(cell.1 as int, cell.0 as int, layer as int))
    } else {
        tap(fallback)
    }
}

/// `a / d` rounded toward zero.
pub open spec fn trunc_div(a: int, d: int) -> int {
    if a >= 0 {
        a / d
    } else {
        -((-a) / d)
    }
}

/// The motion for an axis that moves from `prev` to `new`: a hundredth of
/// the change, toward zero, negated when `invert`; zero when either end is
/// zero, so that touching or releasing the stick does not jump.
pub open spec fn rel_delta(new: int, prev: int, invert: bool) -> int {
    if new == 0 || prev == 0 {
        0
    } else if invert {
        -trunc_div(new - prev, 100)
    } else {
        trunc_div(new - prev, 100)
    }
}

/// Emissions of a D-pad event: one press of the active key, or releases of
/// both keys.
pub fn new_keymod(evt_in: Event, modifier: bool, out_base: u16, out_mod: u16) -> (r: Vec<Event>)
    ensures
        r@ == keymod_out(evt_in.value, modifier, out_base, out_mod),
{
    let mut r: Vec<Event> = Vec::new();
    if evt_in.value == 1 {
        r.push(new_key(if modifier { out_mod } else { out_base }, 1));
    } else {
        r.push(new_key(out_mod, 0));
        r.push(new_key(out_base, 0));
    }
    assert(r@ =~= keymod_out(evt_in.value, modifier, out_base, out_mod));
    r
}

/// A press of `key` followed by its release.
pub fn new_tap(key: u16) -> (r: Vec<Event>)
    ensures
        r@ == tap(key),
{
    let mut r: Vec<Event> = Vec::new();
    r.push(new_key(key, 1));
    r.push(new_key(key, 0));
    assert(r@ =~= tap(key));
    r
}

/// The relative motion for an absolute axis moving from `prev` to `new`.
pub fn rel_motion(new: i32, prev: i32, invert: bool) -> (d: i32)
    ensures
        d == rel_delta(new as int, prev as int, invert),
{
    if new == 0 || prev == 0 {
        return 0;
    }
    let diff: i64 = new as i64 - prev as i64;
    let q: i64 = if diff >= 0 {
        diff / 100
    } else {
        -((-diff) / 100)
    };
    if invert {
        (-q) as i32
    } else {
        q as i32
    }
}

/// The decision core of the daemon: the pad calibration, the device state
/// before and after the current batch, the mode, and the scroll coordinates.
#[derive(Debug)]
pub struct Daemon {
    /// The largest value of the trackpad axes.
    pub hat_max: i32,
    /// The device state before the current batch.
    pub cache_in: DevState,
    /// The device state after the current batch.
    pub state_in: DevState,
    /// `true` in desktop mode (remapping), `false` in gamepad mode.
    pub kbd_mode: bool,
    /// The latest left thumbstick coordinates handed to the scroll worker.
    pub scroll_xy: (i32, i32),
}

/// What the daemon is to do after a batch.
#[derive(Debug)]
pub struct Batch {
    /// The events to emit on the keyboard and mouse device.
    pub out: Vec<Event>,
    /// Whether the mode was toggled (capture or release the device).
    pub toggled: bool,
    /// New coordinates to hand to the scroll worker, if any.
    pub scroll: Option<(i32, i32)>,
    /// New content of the published cell file, if the cell changed.
    pub ipc: Option<Vec<u8>>,
}

/// A press of the mode-toggle button.
pub open spec fn is_thumb_press(e: Event) -> bool {
    e.kind == EV_KEY && e.code == BTN_THUMB && e.value == 1
}

/// An event of the left thumbstick.
pub open spec fn is_stick(e: Event) -> bool {
    e.kind == EV_ABS && (e.code == ABS_X || e.code == ABS_Y)
}

/// The mode and scroll coordinates after one toggle: leaving desktop mode
/// stops the scrolling.
pub open spec fn toggle_mode(kbd_mode: bool, scroll_xy: (i32, i32)) -> (bool, (i32, i32)) {
    if kbd_mode {
        (false, (0i32, 0i32))
    } else {
        (true, scroll_xy)
    }
}

impl Daemon {
    pub open spec fn wf(&self) -> bool {
        &&& self.hat_max >= 0
        &&& self.cache_in.wf()
        &&& self.state_in.wf()
    }

    /// The cell under the finger before (`old`) or after the current batch.
    pub open spec fn cell_spec(&self, old: bool) -> (usize, usize) {
        let s = if old {
            self.cache_in
        } else {
            self.state_in
        };
        cell_of(self.hat_max as int, s.abs_at(ABS_HAT0X) as int, s.abs_at(ABS_HAT0Y) as int)
    }

    /// The left thumbstick coordinates after the current batch.
    pub open spec fn stick_spec(&self) -> (i32, i32) {
        (self.state_in.abs_at(ABS_X), self.state_in.abs_at(ABS_Y))
    }

    /// What one event emits.
    pub open spec fn remap_spec(&self, e: Event) -> Seq<Event> {
        if e.kind == EV_KEY {
            if let Some(keys) = dpad_keys(e.code) {
                keymod_out(
                    e.value,
                    self.state_in.held().contains(BTN_TRIGGER_HAPPY2),
                    keys.0,
                    keys.1,
                )
            } else if let Some(k) = plain_key(e.code) {
                seq![key_event(k, e.value)]
            } else if let Some(f) = face_layer(e.code) {
                vkbd_out(e.value, self.cell_spec(false), f.0, f.1)
            } else {
                seq![]
            }
        } else if e.kind == EV_ABS && e.code == ABS_HAT1X {
            seq![
                rel_event(
                    REL_X,
                    rel_delta(e.value as int, self.cache_in.abs_at(ABS_HAT1X) as int, false) as i32,
                ),
            ]
        } else if e.kind == EV_ABS && e.code == ABS_HAT1Y {
            seq![
                rel_event(
                    REL_Y,
                    rel_delta(e.value as int, self.cache_in.abs_at(ABS_HAT1Y) as int, true) as i32,
                ),
            ]
        } else {
            seq![]
        }
    }

    /// What a sequence of events emits, in order.
    pub open spec fn remap_all(&self, events: Seq<Event>) -> Seq<Event>
        decreases events.len(),
    {
        if events.len() == 0 {
            seq![]
        } else {
            self.remap_all(events.drop_last()) + self.remap_spec(events.last())
        }
    }

    /// Whether the batch toggles the mode: the toggle button was pressed in
    /// it and is the only key held.
    pub open spec fn toggles(&self, events: Seq<Event>) -> bool {
        &&& exists|i: int| 0 <= i < events.len() && is_thumb_press(#[trigger] events[i])
        &&& self.state_in.held() == set![BTN_THUMB]
    }

    /// The daemon once the device state `new_state` is read: the previous
    /// state becomes the state before the batch.
    pub open spec fn refreshed(&self, new_state: DevState) -> Daemon {
        Daemon { cache_in: self.state_in, state_in: new_state, ..*self }
    }

    /// A daemon in desktop mode, idle, with the device state `state`.
    pub fn new(hat_max: i32, state: DevState) -> (d: Daemon)
        requires
            hat_max >= 0,
            state.wf(),
        ensures
            d.wf(),
            d.hat_max == hat_max,
            d.state_in == state,
            d.kbd_mode,
            d.scroll_xy == (0i32, 0i32),
    {
        Daemon {
            hat_max,
            cache_in: DevState::at_rest(),
            state_in: state,
            kbd_mode: true,
            scroll_xy: (0, 0),
        }
    }

    /// The cell under the finger before (`old`) or after the current batch,
    /// or `NO_CELL` while the finger is off the pad.
    pub fn vkbd_xy(&self, old: bool) -> (r: (usize, usize))
        requires
            self.wf(),
        ensures
            r == self.cell_spec(old),
    {
        let s = if old {
            &self.cache_in
        } else {
            &self.state_in
        };
        vkbd_cell_at(self.hat_max, s.abs_value(ABS_HAT0X), s.abs_value(ABS_HAT0Y))
    }

    /// The text to publish when the cell under the finger changed in the
    /// current batch; `None` when it did not.
    pub fn vkbd_send(&self) -> (r: Option<Vec<u8>>)
        requires
            self.wf(),
        ensures
            r is Some <==> self.cell_spec(true) != self.cell_spec(false),
            r matches Some(b) ==> b@ == cell_text(self.cell_spec(false)),
    {
        let old_keypos = self.vkbd_xy(true);
        let new_keypos = self.vkbd_xy(false);
        if old_keypos.0 != new_keypos.0 || old_keypos.1 != new_keypos.1 {
            Some(cell_bytes(new_keypos))
        } else {
            None
        }
    }

    /// The relative motion event for absolute event `evt_in` on axis `rel`.
    pub fn abs2rel(&self, evt_in: Event, rel: u16, invert: bool) -> (r: Event)
        requires
            self.wf(),
            (evt_in.code as int) < crate::codes::ABS_CNT,
        ensures
            r == rel_event(
                rel,
                rel_delta(evt_in.value as int, self.cache_in.abs_at(evt_in.code) as int, invert)
                    as i32,
            ),
    {
        let prev = self.cache_in.abs_value(evt_in.code);
        Event { kind: EV_REL, code: rel, value: rel_motion(evt_in.value, prev, invert) }
    }

    /// Emissions of a face button selecting `layer`: a tap of the key of the
    /// cell under the finger, or of `fallback_key` when the finger is off the
    /// pad; nothing on release.
    pub fn key2vkbd(&self, evt_in: Event, layer: usize, fallback_key: u16) -> (r: Vec<Event>)
        requires
            self.wf(),
            layer < crate::layout::VKBD_LAYERS,
        ensures
            r@ == vkbd_out(evt_in.value, self.cell_spec(false), layer, fallback_key),
    {
        if evt_in.value == 0 {
            let r: Vec<Event> = Vec::new();
            assert(r@ =~= seq![]);
            return r;
        }
        let keypos = self.vkbd_xy(false);
        if keypos.0 != usize::MAX || keypos.1 != usize::MAX {
            new_tap(vkbd_key(keypos.1, keypos.0, layer))
        } else {
            new_tap(fallback_key)
        }
    }

    /// Emissions of one event; a left thumbstick event records the current
    /// stick coordinates for the scroll worker.
    pub fn remap(&mut self, evt_in: Event) -> (r: Vec<Event>)
        requires
            old(self).wf(),
        ensures
            r@ == old(self).remap_spec(evt_in),
            final(self).scroll_xy == if is_stick(evt_in) {
                old(self).stick_spec()
            } else {
                old(self).scroll_xy
            },
            final(self).hat_max == old(self).hat_max,
            final(self).cache_in == old(self).cache_in,
            final(self).state_in == old(self).state_in,
            final(self).kbd_mode == old(self).kbd_mode,
    {
        let mut r: Vec<Event> = Vec::new();
        if evt_in.kind == EV_KEY {
            if let Some(keys) = dpad_keys_of(evt_in.code) {
                let mod_th2 = self.state_in.is_held(BTN_TRIGGER_HAPPY2);
                r = new_keymod(evt_in, mod_th2, keys.0, keys.1);
            } else if let Some(k) = plain_key_of(evt_in.code) {
                r.push(new_key(k, evt_in.value));
                assert(r@ =~= seq![key_event(k, evt_in.value)]);
            } else if let Some(f) = face_layer_of(evt_in.code) {
                r = self.key2vkbd(evt_in, f.0, f.1);
            } else {
                assert(r@ =~= seq![]);
            }
        } else if evt_in.kind == EV_ABS && evt_in.code == ABS_HAT1X {
            r.push(self.abs2rel(evt_in, REL_X, false));
            assert(r@ =~= old(self).remap_spec(evt_in));
        } else if evt_in.kind == EV_ABS && evt_in.code == ABS_HAT1Y {
            r.push(self.abs2rel(evt_in, REL_Y, true));
            assert(r@ =~= old(self).remap_spec(evt_in));
        } else {
            if evt_in.kind == EV_ABS && (evt_in.code == ABS_X || evt_in.code == ABS_Y) {
                self.scroll_xy = (
                    self.state_in.abs_value(ABS_X),
                    self.state_in.abs_value(ABS_Y),
                );
            }
            assert(r@ =~= seq![]);
        }
        r
    }

    /// Toggles the mode when the batch `events_in` pressed the toggle button
    /// while no other key is held; leaving desktop mode stops the scrolling.
    /// Returns whether the mode was toggled.
    pub fn switch_mode(&mut self, events_in: &Vec<Event>) -> (toggled: bool)
        ensures
            toggled == old(self).toggles(events_in@),
            (final(self).kbd_mode, final(self).scroll_xy) == if toggled {
                toggle_mode(old(self).kbd_mode, old(self).scroll_xy)
            } else {
                (old(self).kbd_mode, old(self).scroll_xy)
            },
            final(self).hat_max == old(self).hat_max,
            final(self).cache_in == old(self).cache_in,
            final(self).state_in == old(self).state_in,
    {
        let mut pressed = false;
        let mut i: usize = 0;
        while i < events_in.len()
            invariant
                i <= events_in@.len(),
                pressed == exists|j: int| 0 <= j < i && is_thumb_press(#[trigger] events_in@[j]),
            decreases events_in@.len() - i,
        {
            let e = events_in[i];
            if e.kind == EV_KEY && e.code == BTN_THUMB && e.value == 1 {
                pressed = true;
            }
            i = i + 1;
        }
        if pressed && self.state_in.holds_only(BTN_THUMB) {
            self.kbd_mode = !self.kbd_mode;
            if !self.kbd_mode {
                self.scroll_xy = (0, 0);
            }
            true
        } else {
            false
        }
    }

    /// One cycle of the daemon: `new_state` is the device state after the
    /// batch `events_in`. Returns what to emit, whether the mode toggled, the
    /// coordinates to hand to the scroll worker and the text to publish. In
    /// gamepad mode the batch is dropped.
    pub fn process(&mut self, new_state: DevState, events_in: &Vec<Event>) -> (r: Batch)
        requires
            old(self).wf(),
            new_state.wf(),
        ensures
            final(self).wf(),
            final(self).hat_max == old(self).hat_max,
            final(self).cache_in == old(self).state_in,
            final(self).state_in == new_state,
            r.toggled == old(self).refreshed(new_state).toggles(events_in@),
            final(self).kbd_mode == (old(self).kbd_mode != r.toggled),
            !final(self).kbd_mode ==> {
                &&& r.out@ == Seq::<Event>::empty()
                &&& r.ipc is None
                &&& final(self).scroll_xy == if r.toggled {
                    (0i32, 0i32)
                } else {
                    old(self).scroll_xy
                }
                &&& r.scroll == if r.toggled {
                    Some((0i32, 0i32))
                } else {
                    None::<(i32, i32)>
                }
            },
            final(self).kbd_mode ==> {
                let d = old(self).refreshed(new_state);
                let stick = exists|i: int|
                    0 <= i < events_in@.len() && is_stick(#[trigger] events_in@[i]);
                &&& r.out@ == d.remap_all(events_in@)
                &&& final(self).scroll_xy == if stick {
                    d.stick_spec()
                } else {
                    old(self).scroll_xy
                }
                &&& r.scroll == if stick {
                    Some(d.stick_spec())
                } else {
                    None::<(i32, i32)>
                }
                &&& (r.ipc is Some <==> d.cell_spec(true) != d.cell_spec(false))
                &&& (r.ipc matches Some(b) ==> b@ == cell_text(d.cell_spec(false)))
            },
    {
        let ghost pre = *self;
        let mut new_state = new_state;
        std::mem::swap(&mut self.state_in, &mut new_state);
        self.cache_in = new_state;
        let toggled = self.switch_mode(events_in);
        if !self.kbd_mode {
            let out: Vec<Event> = Vec::new();
            assert(out@ =~= Seq::<Event>::empty());
            let scroll = if toggled {
                Some((0i32, 0i32))
            } else {
                None
            };
            return Batch { out, toggled, scroll, ipc: None };
        }
        let ghost d = pre.refreshed(self.state_in);
        let ghost xy0 = self.scroll_xy;
        let mut out: Vec<Event> = Vec::new();
        let mut stick = false;
        let mut i: usize = 0;
        while i < events_in.len()
            invariant
                i <= events_in@.len(),
                self.wf(),
                self.hat_max == d.hat_max,
                self.cache_in == d.cache_in,
                self.state_in == d.state_in,
                self.kbd_mode,
                out@ == d.remap_all(events_in@.subrange(0, i as int)),
                stick == exists|j: int| 0 <= j < i && is_stick(#[trigger] events_in@[j]),
                self.scroll_xy == if stick {
                    d.stick_spec()
                } else {
                    xy0
                },
            decreases events_in@.len() - i,
        {
            let e = events_in[i];
            let mut evs = self.remap(e);
            assert(d.remap_spec(e) == self.remap_spec(e));
            out.append(&mut evs);
            if e.kind == EV_ABS && (e.code == ABS_X || e.code == ABS_Y) {
                stick = true;
            }
            assert(events_in@.subrange(0, i + 1).drop_last() =~= events_in@.subrange(0, i as int));
            i = i + 1;
        }
        assert(events_in@.subrange(0, events_in@.len() as int) =~= events_in@);
        let scroll = if stick {
            Some(self.scroll_xy)
        } else {
            None
        };
        let ipc = self.vkbd_send();
        assert(self.cell_spec(true) == d.cell_spec(true) && self.cell_spec(false) == d.cell_spec(false));
        Batch { out, toggled, scroll, ipc }
    }
}

} // verus!
