use std::cell::RefCell;
use std::rc::Rc;

use minifb::Error;
use minifb::InputCallback;
use minifb::Key;
use minifb::KeyRepeat;
use minifb::Menu;
use minifb::MenuItem;
use minifb::Modifiers;
use minifb::MouseMode;
use minifb::Scale;
use minifb::Window;
use minifb::WindowOptions;

#[test]
fn transparency_requires_borderless() {
    let opts = WindowOptions {
        transparency: true,
        borderless: false,
        ..WindowOptions::default()
    };
    let r = Window::new("t", 64, 64, opts);
    assert!(matches!(r, Err(Error::WindowCreate(_))));
}

#[test]
fn zero_sized_windows_are_refused() {
    let r = Window::new("t", 0, 64, WindowOptions::default());
    assert!(matches!(r, Err(Error::WindowCreate(_))));
    let r = Window::new("t", 64, 0, WindowOptions::default());
    assert!(matches!(r, Err(Error::WindowCreate(_))));
}

#[test]
fn transparency_with_borderless_is_accepted() {
    let opts = WindowOptions {
        transparency: true,
        borderless: true,
        ..WindowOptions::default()
    };
    assert!(Window::new("t", 64, 64, opts).is_ok());
}

#[test]
fn scale_sets_the_window_size() {
    let opts = WindowOptions {
        scale: Scale::X2,
        ..WindowOptions::default()
    };
    let window = Window::new("t", 320, 200, opts).unwrap();
    assert_eq!(window.get_size(), (640, 400));
}

#[test]
fn stretch_maps_window_corners_back_to_the_buffer() {
    let opts = WindowOptions {
        scale: Scale::X2,
        ..WindowOptions::default()
    };
    let mut window = Window::new("t", 320, 200, opts).unwrap();
    window.on_raw_mouse_motion(640, 400);
    assert_eq!(window.get_mouse_pos(MouseMode::Pass), Some((320, 200)));
    assert_eq!(window.get_mouse_pos(MouseMode::Clamp), Some((319, 199)));
    assert_eq!(window.get_mouse_pos(MouseMode::Discard), None);
    window.on_raw_mouse_motion(0, 0);
    assert_eq!(window.get_mouse_pos(MouseMode::Pass), Some((0, 0)));
    assert_eq!(window.get_mouse_pos(MouseMode::Discard), Some((0, 0)));
}

#[test]
fn unscaled_mouse_position_is_the_identity_under_pass() {
    let mut window = Window::new("t", 320, 200, WindowOptions::default()).unwrap();
    window.on_raw_mouse_motion(-7, 9999);
    assert_eq!(window.get_unscaled_mouse_pos(MouseMode::Pass), Some((-7, 9999)));
    assert_eq!(window.get_unscaled_mouse_pos(MouseMode::Clamp), Some((0, 199)));
    assert_eq!(window.get_unscaled_mouse_pos(MouseMode::Discard), None);
}

#[test]
fn window_scroll_is_consumed_on_read() {
    let mut window = Window::new("t", 64, 64, WindowOptions::default()).unwrap();
    window.on_raw_scroll(3, 4);
    assert_eq!(window.get_scroll_wheel(), Some((3, 4)));
    assert_eq!(window.get_scroll_wheel(), None);
}

#[test]
fn update_with_buffer_rejects_short_buffers() {
    let mut window = Window::new("t", 64, 64, WindowOptions::default()).unwrap();
    let buffer = vec![0u32; 10];
    let r = window.update_with_buffer(&buffer, 100, 100, 0);
    assert!(matches!(r, Err(Error::UpdateFailed(_))));
    let r = window.update_with_buffer(&buffer, 0, 10, 0);
    assert!(matches!(r, Err(Error::UpdateFailed(_))));
}

#[test]
fn update_with_buffer_accepts_a_full_buffer() {
    let mut window = Window::new("t", 64, 64, WindowOptions::default()).unwrap();
    let buffer = vec![0u32; 64 * 64];
    assert!(window.update_with_buffer(&buffer, 64, 64, 0).is_ok());
}

#[test]
fn closed_windows_ignore_updates() {
    let mut window = Window::new("t", 64, 64, WindowOptions::default()).unwrap();
    assert!(window.is_open());
    window.on_raw_close();
    assert!(!window.is_open());
    // Even a hopeless buffer is silently accepted: updates are no-ops now.
    let r = window.update_with_buffer(&[], 100, 100, 0);
    assert_eq!(r, Ok(0));
    assert_eq!(window.update(12345), 0);
}

#[test]
fn update_paces_the_event_pump() {
    let mut window = Window::new("t", 64, 64, WindowOptions::default()).unwrap();
    window.limit_update_rate(Some(4000));
    assert_eq!(window.update(10_000), 0);
    assert_eq!(window.update(11_000), 3000);
    window.limit_update_rate(None);
    assert_eq!(window.update(11_001), 0);
}

#[test]
fn update_starts_a_fresh_poll_cycle() {
    let mut window = Window::new("t", 64, 64, WindowOptions::default()).unwrap();
    window.on_raw_key_event(Key::A, true, 5);
    assert!(window.is_key_pressed(Key::A, KeyRepeat::No, 6));
    window.update(10);
    assert!(!window.is_key_pressed(Key::A, KeyRepeat::No, 11));
    assert!(window.is_key_down(Key::A));
}

#[test]
fn focus_loss_releases_held_keys() {
    let mut window = Window::new("t", 64, 64, WindowOptions::default()).unwrap();
    window.on_raw_key_event(Key::A, true, 5);
    assert!(window.is_active());
    window.on_raw_focus(false);
    assert!(!window.is_active());
    assert!(!window.is_key_down(Key::A));
    assert!(window.is_key_released(Key::A));
}

#[test]
fn window_getters_report_the_set_state() {
    let mut window = Window::new("t", 64, 64, WindowOptions::default()).unwrap();
    window.set_position(20, -30);
    assert_eq!(window.get_position(), (20, -30));
    window.on_raw_resize(800, 600);
    assert_eq!(window.get_size(), (800, 600));
    window.set_title("renamed");
    window.set_background_color(300, 0, 0);
    window.set_cursor_visibility(false);
    window.topmost(true);
}

#[test]
fn menu_shortcut_is_reported_while_its_edge_is_fresh() {
    let mut menu = Menu::new("File").unwrap();
    let mut item = menu.add_item("Save", 7).shortcut(Key::S, Modifiers::new(false, true, false, false));
    item = item.enabled(true);
    item.build(&mut menu);
    let mut window = Window::new("t", 64, 64, WindowOptions::default()).unwrap();
    window.add_menu(&menu);
    assert_eq!(window.is_menu_pressed(), None);
    window.on_raw_key_event(Key::LeftCtrl, true, 1);
    window.on_raw_key_event(Key::S, true, 2);
    assert_eq!(window.is_menu_pressed(), Some(7));
    window.update(10);
    // The edge was consumed by the cycle boundary.
    assert_eq!(window.is_menu_pressed(), None);
}

#[test]
fn menu_shortcut_needs_its_modifiers() {
    let mut menu = Menu::new("File").unwrap();
    menu.add_item("Save", 7).shortcut(Key::S, Modifiers::new(false, true, false, false)).build(&mut menu);
    let mut window = Window::new("t", 64, 64, WindowOptions::default()).unwrap();
    window.add_menu(&menu);
    window.on_raw_key_event(Key::S, true, 2);
    assert_eq!(window.is_menu_pressed(), None);
}

#[test]
fn remove_menu_detaches_only_its_menu() {
    let menu_a = Menu::new("A").unwrap();
    let menu_b = Menu::new("B").unwrap();
    let mut window = Window::new("t", 64, 64, WindowOptions::default()).unwrap();
    let ha = window.add_menu(&menu_a);
    let hb = window.add_menu(&menu_b);
    assert_ne!(ha.0, hb.0);
    window.remove_menu(ha);
    let menus = window.get_posix_menus().unwrap();
    assert_eq!(menus.len(), 1);
    assert_eq!(menus[0].name, "B");
    // Removing again is a silent no-op.
    window.remove_menu(ha);
    assert_eq!(window.get_posix_menus().unwrap().len(), 1);
    assert_eq!(window.get_unix_menus().unwrap().len(), 1);
}

struct Recorder {
    chars: Rc<RefCell<Vec<u32>>>,
    states: Rc<RefCell<Vec<(Key, bool)>>>,
}

impl InputCallback for Recorder {
    fn add_char(&mut self, uni_char: u32) {
        self.chars.borrow_mut().push(uni_char);
    }

    fn set_key_state(&mut self, key: Key, state: bool) {
        self.states.borrow_mut().push((key, state));
    }
}

#[test]
fn input_callback_hears_raw_events() {
    let chars = Rc::new(RefCell::new(Vec::new()));
    let states = Rc::new(RefCell::new(Vec::new()));
    let mut window = Window::new("t", 64, 64, WindowOptions::default()).unwrap();
    window.set_input_callback(Box::new(Recorder {
        chars: chars.clone(),
        states: states.clone(),
    }));
    window.on_raw_char(65);
    window.on_raw_key_event(Key::A, true, 1);
    window.on_raw_key_event(Key::A, false, 2);
    assert_eq!(*chars.borrow(), vec![65]);
    assert_eq!(*states.borrow(), vec![(Key::A, true), (Key::A, false)]);
}

#[test]
fn modifier_sets_answer_their_queries() {
    let m = Modifiers::new(true, false, true, false);
    assert!(m.shift());
    assert!(!m.ctrl());
    assert!(m.alt());
    assert!(!m.logo());
    let n = Modifiers::new(false, true, false, false);
    assert!(!m.intersects(n));
    let u = m.union(n);
    assert!(u.shift() && u.ctrl() && u.alt() && !u.logo());
    assert!(u.intersects(n));
    assert!(!Modifiers::empty().shift());
}

#[test]
fn error_messages_carry_their_description() {
    let r = Window::new("t", 0, 64, WindowOptions::default());
    match r {
        Err(e) => assert!(!e.message().is_empty()),
        Ok(_) => panic!("expected a creation error"),
    }
}
