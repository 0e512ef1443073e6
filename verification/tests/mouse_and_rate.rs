use minifb::apply_mouse_mode;
use minifb::MouseButton;
use minifb::MouseHandler;
use minifb::MouseMode;
use minifb::RateLimiter;

#[test]
fn scroll_is_consumed_on_read() {
    let mut m = MouseHandler::new();
    m.on_raw_scroll(3, 4);
    assert_eq!(m.get_scroll_wheel(), Some((3, 4)));
    assert_eq!(m.get_scroll_wheel(), None);
}

#[test]
fn scroll_accumulates_between_reads() {
    let mut m = MouseHandler::new();
    m.on_raw_scroll(1, -2);
    m.on_raw_scroll(4, 7);
    assert_eq!(m.get_scroll_wheel(), Some((5, 5)));
    assert_eq!(m.get_scroll_wheel(), None);
}

#[test]
fn scroll_saturates_at_the_integer_range() {
    let mut m = MouseHandler::new();
    m.on_raw_scroll(i32::MAX, i32::MIN);
    m.on_raw_scroll(100, -100);
    assert_eq!(m.get_scroll_wheel(), Some((i32::MAX, i32::MIN)));
}

#[test]
fn mouse_modes_outside_the_bounds() {
    // A point outside [0, 640) x [0, 400).
    assert_eq!(apply_mouse_mode(-5, 1000, 640, 400, MouseMode::Pass), Some((-5, 1000)));
    assert_eq!(apply_mouse_mode(-5, 1000, 640, 400, MouseMode::Clamp), Some((0, 399)));
    assert_eq!(apply_mouse_mode(-5, 1000, 640, 400, MouseMode::Discard), None);
}

#[test]
fn mouse_modes_inside_the_bounds() {
    assert_eq!(apply_mouse_mode(10, 20, 640, 400, MouseMode::Pass), Some((10, 20)));
    assert_eq!(apply_mouse_mode(10, 20, 640, 400, MouseMode::Clamp), Some((10, 20)));
    assert_eq!(apply_mouse_mode(10, 20, 640, 400, MouseMode::Discard), Some((10, 20)));
}

#[test]
fn mouse_buttons_track_their_own_state() {
    let mut m = MouseHandler::new();
    assert!(!m.get_mouse_down(MouseButton::Left));
    m.on_raw_mouse_button(MouseButton::Left, true);
    m.on_raw_mouse_button(MouseButton::Right, true);
    assert!(m.get_mouse_down(MouseButton::Left));
    assert!(!m.get_mouse_down(MouseButton::Middle));
    assert!(m.get_mouse_down(MouseButton::Right));
    m.on_raw_mouse_button(MouseButton::Left, false);
    assert!(!m.get_mouse_down(MouseButton::Left));
    assert!(m.get_mouse_down(MouseButton::Right));
}

#[test]
fn rate_limiter_owes_the_remainder_of_the_interval() {
    let mut r = RateLimiter::new(0);
    r.set_rate(Some(4000));
    // Plenty of time has passed: no wait, clock restarts at the tick.
    assert_eq!(r.tick(10_000), 0);
    // One millisecond later the limiter owes the missing three.
    assert_eq!(r.tick(11_000), 3000);
}

#[test]
fn rate_limiter_carries_no_debt() {
    let mut r = RateLimiter::new(0);
    r.set_rate(Some(4000));
    assert_eq!(r.tick(4000), 0);
    // A slow frame: far more than the interval passed.
    assert_eq!(r.tick(100_000), 0);
    // The next frame is measured from the slow tick, not from a schedule.
    assert_eq!(r.tick(103_000), 1000);
}

#[test]
fn rate_limiter_disabled_never_waits() {
    let mut r = RateLimiter::new(0);
    r.set_rate(None);
    assert_eq!(r.tick(0), 0);
    assert_eq!(r.tick(0), 0);
    assert_eq!(r.tick(1), 0);
}

#[test]
fn rate_limiter_clock_saturates_at_the_range_end() {
    let mut r = RateLimiter::new(0);
    r.set_rate(Some(u64::MAX));
    assert_eq!(r.tick(10), u64::MAX - 10);
    // The projected tick start would pass the range: it is held at its end,
    // and the next tick still owes the full interval.
    assert_eq!(r.tick(20), u64::MAX);
}
