//! Input events and device snapshots as plain values.
use vstd::prelude::*;
use crate::codes::{ABS_CNT, EV_KEY, EV_REL};

verus! {

/// One kernel input event: its type, its code and its value.
#[derive(Clone, Copy, Debug, PartialEq, Eq, Structural)]
pub struct Event {
    pub kind: u16,
    pub code: u16,
    pub value: i32,
}

/// A key event of `key` with `value` (0 up, 1 down, 2 auto-repeat).
pub open spec fn key_event(key: u16, value: i32) -> Event {
    Event { kind: EV_KEY, code: key, value }
}

/// A relative-axis event on `axis` with `delta`.
pub open spec fn rel_event(axis: u16, delta: i32) -> Event {
    Event { kind: EV_REL, code: axis, value: delta }
}

/// A key event of `key` with `value`.
pub fn new_key(key: u16, value: i32) -> (e: Event)
    ensures
        e == key_event(key, value),
{
    Event { kind: EV_KEY, code: key, value }
}

/// What a device reports at one instant: the value of each absolute axis,
/// indexed by axis code, and the keys held down.
#[derive(Debug)]
pub struct DevState {
    pub abs: Vec<i32>,
    pub keys: Vec<u16>,
}

impl DevState {
    /// Every absolute axis code has a value.
    pub open spec fn wf(&self) -> bool {
        self.abs@.len() == ABS_CNT
    }

    /// The value of axis `code`.
    pub open spec fn abs_at(&self, code: u16) -> i32 {
        self.abs@[code as int]
    }

    /// The set of keys held down.
    pub open spec fn held(&self) -> Set<u16> {
        self.keys@.to_set()
    }

    /// A state with every axis at `0` and no key held.
    pub fn at_rest() -> (s: DevState)
        ensures
            s.wf(),
            forall|c: u16| (c as int) < ABS_CNT ==> #[trigger] s.abs_at(c) == 0,
            s.held() == Set::<u16>::empty(),
    {
        let mut abs: Vec<i32> = Vec::new();
        let mut i: usize = 0;
        while i < ABS_CNT
            invariant
                i <= ABS_CNT,
                abs@.len() == i,
                forall|j: int| 0 <= j < i ==> abs@[j] == 0,
            decreases ABS_CNT - i,
        {
            abs.push(0);
            i = i + 1;
        }
        let keys: Vec<u16> = Vec::new();
        let s = DevState { abs, keys };
        assert(s.keys@.to_set() =~= Set::<u16>::empty());
        s
    }

    /// The value of axis `code`.
    pub fn abs_value(&self, code: u16) -> (v: i32)
        requires
            self.wf(),
            (code as int) < ABS_CNT,
        ensures
            v == self.abs_at(code),
    {
        self.abs[code as usize]
    }

    /// Whether `key` is held down.
    pub fn is_held(&self, key: u16) -> (r: bool)
        ensures
            r == self.held().contains(key),
    {
        let mut i: usize = 0;
        while i < self.keys.len()
            invariant
                i <= self.keys@.len(),
                forall|j: int| 0 <= j < i ==> self.keys@[j] != key,
            decreases self.keys@.len() - i,
        {
            if self.keys[i] == key {
                assert(self.keys@.contains(key));
                return true;
            }
            i = i + 1;
        }
        false
    }

    /// Whether `key` is held down and no other key is.
    pub fn holds_only(&self, key: u16) -> (r: bool)
        ensures
            r == (self.held() == set![key]),
    {
        if self.keys.len() == 0 {
            assert(!self.held().contains(key));
            return false;
        }
        let mut i: usize = 0;
        while i < self.keys.len()
            invariant
                i <= self.keys@.len(),
                forall|j: int| 0 <= j < i ==> self.keys@[j] == key,
            decreases self.keys@.len() - i,
        {
            if self.keys[i] != key {
                let other = self.keys[i];
                assert(self.held().contains(other));
                assert(!set![key].contains(other));
                return false;
            }
            i = i + 1;
        }
        assert(self.keys@[0] == key);
        assert(self.held() =~= set![key]);
        true
    }
}

} // verus!
