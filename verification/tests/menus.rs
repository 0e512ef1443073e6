use minifb::Key;
use minifb::Menu;
use minifb::MenuItem;
use minifb::Modifiers;
use minifb::Window;
use minifb::WindowOptions;
use minifb::MENU_ID_SEPARATOR;

fn attach(window: &mut Window, menu: &Menu) -> usize {
    let h = window.add_menu(menu);
    let menus = window.get_posix_menus().unwrap();
    let mut found = 0;
    for (i, m) in menus.iter().enumerate() {
        if m.handle.0 == h.0 {
            found = i;
        }
    }
    found
}

#[test]
fn menu_handles_are_pairwise_distinct() {
    let mut menu = Menu::new("File").unwrap();
    let mut handles = Vec::new();
    for i in 0..10 {
        handles.push(menu.add_menu_item(&MenuItem::new("x", i)).0);
    }
    for i in 0..handles.len() {
        for j in 0..handles.len() {
            if i != j {
                assert_ne!(handles[i], handles[j]);
            }
        }
    }
}

#[test]
fn removing_one_handle_leaves_the_others() {
    let mut menu = Menu::new("File").unwrap();
    let h1 = menu.add_menu_item(&MenuItem::new("one", 1));
    let h2 = menu.add_menu_item(&MenuItem::new("two", 2));
    let h3 = menu.add_menu_item(&MenuItem::new("three", 3));
    menu.remove_item(&h2);
    let mut window = Window::new("t", 64, 64, WindowOptions::default()).unwrap();
    let at = attach(&mut window, &menu);
    let items = &window.get_posix_menus().unwrap()[at].items;
    assert_eq!(items.len(), 2);
    assert_eq!(items[0].handle.0, h1.0);
    assert_eq!(items[0].label, "one");
    assert_eq!(items[1].handle.0, h3.0);
    assert_eq!(items[1].label, "three");
}

#[test]
fn removing_a_stale_handle_is_a_silent_no_op() {
    let mut menu = Menu::new("File").unwrap();
    let h = menu.add_menu_item(&MenuItem::new("one", 1));
    menu.remove_item(&h);
    menu.remove_item(&h);
    let fresh = menu.add_menu_item(&MenuItem::new("two", 2));
    // Handles are never reused, even after a removal.
    assert_ne!(fresh.0, h.0);
}

#[test]
fn file_menu_scenario() {
    let mut menu = Menu::new("File").unwrap();
    let open = menu.add_menu_item(&MenuItem::new("Open", 1));
    let _exit = menu.add_menu_item(&MenuItem::new("Exit", 2));
    menu.add_separator();
    menu.remove_item(&open);
    let mut window = Window::new("t", 64, 64, WindowOptions::default()).unwrap();
    let at = attach(&mut window, &menu);
    let posix = &window.get_posix_menus().unwrap()[at];
    assert_eq!(posix.name, "File");
    assert_eq!(posix.items.len(), 2);
    assert_eq!(posix.items[0].label, "Exit");
    assert_eq!(posix.items[0].id, 2);
    assert_eq!(posix.items[1].id, MENU_ID_SEPARATOR);
}

#[test]
fn builder_inserts_only_when_built() {
    let mut menu = Menu::new("Edit").unwrap();
    let item = menu.add_item("Undo", 4).shortcut(Key::U, Modifiers::new(false, true, false, false)).enabled(false);
    // Nothing is inserted until the descriptor is built.
    let mut probe = Window::new("t", 64, 64, WindowOptions::default()).unwrap();
    let at = attach(&mut probe, &menu);
    assert!(probe.get_posix_menus().unwrap()[at].items.is_empty());
    item.build(&mut menu);
    let mut window = Window::new("t", 64, 64, WindowOptions::default()).unwrap();
    let at2 = attach(&mut window, &menu);
    let items = &window.get_posix_menus().unwrap()[at2].items;
    assert_eq!(items.len(), 1);
    assert_eq!(items[0].label, "Undo");
    assert_eq!(items[0].id, 4);
    assert!(!items[0].enabled);
    assert_eq!(items[0].key, Key::U);
    assert!(items[0].modifiers.ctrl());
    assert!(!items[0].modifiers.shift());
}

#[test]
fn sub_menus_are_deep_copies() {
    let mut inner = Menu::new("Inner").unwrap();
    inner.add_menu_item(&MenuItem::new("first", 1));
    let mut outer = Menu::new("Outer").unwrap();
    outer.add_sub_menu("More", &inner);
    // A later edit of the source must not reach the copy.
    inner.add_menu_item(&MenuItem::new("second", 2));
    let mut window = Window::new("t", 64, 64, WindowOptions::default()).unwrap();
    let at = attach(&mut window, &outer);
    let items = &window.get_posix_menus().unwrap()[at].items;
    assert_eq!(items.len(), 1);
    assert_eq!(items[0].label, "More");
    let sub = items[0].sub_menu.as_ref().unwrap();
    assert_eq!(sub.name, "Inner");
    assert_eq!(sub.items.len(), 1);
    assert_eq!(sub.items[0].label, "first");
}

#[test]
fn separator_builder_marks_the_id() {
    let item = MenuItem::new("x", 9).separator();
    assert_eq!(item.id, MENU_ID_SEPARATOR);
    assert_eq!(item.label, "x");
}

#[test]
fn destroy_menu_keeps_the_tree() {
    let mut menu = Menu::new("File").unwrap();
    menu.add_menu_item(&MenuItem::new("one", 1));
    menu.destroy_menu();
    let mut window = Window::new("t", 64, 64, WindowOptions::default()).unwrap();
    let at = attach(&mut window, &menu);
    assert_eq!(window.get_posix_menus().unwrap()[at].items.len(), 1);
}

#[test]
fn default_menu_item_is_an_enabled_separator_blank() {
    let item = MenuItem::default();
    assert_eq!(item.id, MENU_ID_SEPARATOR);
    assert_eq!(item.label, "");
    assert!(item.enabled);
    assert_eq!(item.key, Key::Unknown);
}
