use sdmap::codes::{EV_REL, REL_HWHEEL, REL_WHEEL};
use sdmap::event::Event;
use sdmap::scroll::{scroll_tick, TICK_MS};

fn wheel(code: u16, value: i32) -> Event {
    Event { kind: EV_REL, code, value }
}

#[test]
fn stick_right_for_250ms_scrolls_right() {
    let r = 8;
    let mut hwheel = 0;
    let mut vwheel = 0;
    let mut t: u64 = 0;
    while t < 250 {
        let evs = scroll_tick(r, 0, r).expect("deflected stick scrolls");
        for e in evs {
            assert_eq!(e.value, 1);
            if e.code == REL_HWHEEL {
                hwheel += 1;
            } else {
                vwheel += 1;
            }
        }
        t += TICK_MS;
    }
    assert!(hwheel == 2 || hwheel == 3);
    assert_eq!(vwheel, 0);
}

#[test]
fn stick_near_centre_parks() {
    assert!(scroll_tick(7, -7, 8).is_none());
    assert!(scroll_tick(0, 0, 8).is_none());
}

#[test]
fn vertical_axis_is_inverted() {
    assert_eq!(scroll_tick(0, 8, 8), Some(vec![wheel(REL_WHEEL, -1)]));
    assert_eq!(scroll_tick(0, -8, 8), Some(vec![wheel(REL_WHEEL, 1)]));
}

#[test]
fn both_axes_tick_once_each() {
    assert_eq!(scroll_tick(-500, -500, 8), Some(vec![wheel(REL_HWHEEL, -1), wheel(REL_WHEEL, 1)]));
    assert_eq!(scroll_tick(i32::MIN, 0, 8), Some(vec![wheel(REL_HWHEEL, -1)]));
}
