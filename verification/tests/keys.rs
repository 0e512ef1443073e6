use minifb::Key;
use minifb::KeyHandler;
use minifb::KeyRepeat;

#[test]
fn press_reported_once_per_cycle() {
    let mut h = KeyHandler::new();
    h.on_raw_key_event(Key::A, true, 5);
    assert!(h.is_key_down(Key::A));
    assert!(h.is_key_pressed(Key::A, KeyRepeat::No, 5));
    // Still the same poll cycle: the press stays visible.
    assert!(h.is_key_pressed(Key::A, KeyRepeat::No, 6));
    h.on_raw_key_event(Key::A, false, 6);
    assert!(!h.is_key_down(Key::A));
    assert!(h.is_key_released(Key::A));
    // The release does not erase the press mark within the cycle.
    assert!(h.is_key_pressed(Key::A, KeyRepeat::No, 7));
    h.next_cycle();
    // After the cycle boundary the press is gone for good.
    assert!(!h.is_key_pressed(Key::A, KeyRepeat::No, 8));
    assert!(!h.is_key_released(Key::A));
}

#[test]
fn release_and_repress_in_one_cycle_register_both() {
    let mut h = KeyHandler::new();
    h.on_raw_key_event(Key::B, true, 10);
    h.next_cycle();
    h.on_raw_key_event(Key::B, false, 20);
    h.on_raw_key_event(Key::B, true, 21);
    assert!(h.is_key_released(Key::B));
    assert!(h.is_key_pressed(Key::B, KeyRepeat::No, 22));
    assert!(h.is_key_down(Key::B));
}

#[test]
fn down_event_on_held_key_is_ignored() {
    let mut h = KeyHandler::new();
    h.on_raw_key_event(Key::C, true, 10);
    h.next_cycle();
    h.on_raw_key_event(Key::C, true, 20);
    // The platform's synthesized repeat is no fresh press.
    assert!(!h.is_key_pressed(Key::C, KeyRepeat::No, 21));
    assert!(h.is_key_down(Key::C));
}

#[test]
fn repeat_count_follows_delay_then_rate() {
    // delay 4000 us, rate 2000 us, held for 10000 us, polled every 1000 us:
    // one edge press plus repeats at 6000, 8000 and 10000.
    let mut h = KeyHandler::new();
    h.set_key_repeat_delay(4000);
    h.set_key_repeat_rate(2000);
    h.on_raw_key_event(Key::Space, true, 0);
    let mut observed = 0;
    let mut t = 1000;
    while t <= 10000 {
        if h.is_key_pressed(Key::Space, KeyRepeat::Yes, t) {
            observed += 1;
        }
        h.next_cycle();
        t += 1000;
    }
    assert_eq!(observed, 1 + (10000 - 4000) / 2000);
}

#[test]
fn no_repeat_before_first_scheduled_time() {
    let mut h = KeyHandler::new();
    h.set_key_repeat_delay(4000);
    h.set_key_repeat_rate(2000);
    h.on_raw_key_event(Key::D, true, 0);
    h.next_cycle();
    assert!(!h.is_key_pressed(Key::D, KeyRepeat::Yes, 4000));
    assert!(!h.is_key_pressed(Key::D, KeyRepeat::Yes, 5999));
    assert!(h.is_key_pressed(Key::D, KeyRepeat::Yes, 6000));
    // The slot at 6000 fired; the next one is 8000.
    assert!(!h.is_key_pressed(Key::D, KeyRepeat::Yes, 7999));
    assert!(h.is_key_pressed(Key::D, KeyRepeat::Yes, 8000));
}

#[test]
fn repeat_mode_no_never_synthesizes() {
    let mut h = KeyHandler::new();
    h.set_key_repeat_delay(100);
    h.set_key_repeat_rate(50);
    h.on_raw_key_event(Key::E, true, 0);
    h.next_cycle();
    assert!(!h.is_key_pressed(Key::E, KeyRepeat::No, 100_000));
}

#[test]
fn get_keys_lists_down_keys_in_enumeration_order() {
    let mut h = KeyHandler::new();
    h.on_raw_key_event(Key::Z, true, 1);
    h.on_raw_key_event(Key::A, true, 2);
    h.on_raw_key_event(Key::M, true, 3);
    let keys = h.get_keys();
    assert_eq!(keys, vec![Key::A, Key::M, Key::Z]);
    let pressed = h.get_keys_pressed(KeyRepeat::No, 4);
    assert_eq!(pressed, vec![Key::A, Key::M, Key::Z]);
    h.on_raw_key_event(Key::M, false, 5);
    assert_eq!(h.get_keys(), vec![Key::A, Key::Z]);
    assert_eq!(h.get_keys_released(), vec![Key::M]);
}

#[test]
fn get_keys_empty_when_nothing_is_down() {
    let h = KeyHandler::new();
    assert!(h.get_keys().is_empty());
    assert!(h.get_keys_released().is_empty());
}
