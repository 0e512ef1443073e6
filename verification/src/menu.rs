//! The in-process menu model used on systems without a native menu surface.

use vstd::prelude::*;

use crate::error::Error;
use crate::key::Key;
use crate::modifiers::Modifiers;
use vstd::pervasive::VecAdditionalExecFns;

verus! {

/// The reserved item id that marks a non-selectable separator row.
pub const MENU_ID_SEPARATOR: usize = 0xffffffff;

/// Identifies a menu attached to a window.
#[derive(Clone, Copy, Debug, PartialEq, Eq, Structural)]
pub struct MenuHandle(pub u64);

/// Identifies an item within a menu.
///
/// Handles are never reused within one menu, even after the item is removed.
#[derive(Clone, Copy, Debug, PartialEq, Eq, Structural)]
pub struct MenuItemHandle(pub u64);

/// One row of a menu as the host queries it: either a plain item or the
/// head of a sub-menu.
#[derive(Debug)]
pub struct PosixMenuItem {
    /// The sub-menu this row opens, if it is a sub-menu head.
    pub sub_menu: Option<Box<PosixMenu>>,
    /// The id the host chose for the item; reported back when the item is
    /// selected.  [`MENU_ID_SEPARATOR`] marks a separator row.
    pub id: usize,
    /// The text shown on the row.
    pub label: String,
    /// Whether the row can be selected.
    pub enabled: bool,
    /// The shortcut key, [`Key::Unknown`] for none.
    pub key: Key,
    /// The modifiers the shortcut requires.
    pub modifiers: Modifiers,
    /// The handle [`Menu::add_menu_item`] returned for this row.
    pub handle: MenuItemHandle,
}

/// A menu tree as the host queries it: a named, ordered sequence of rows and
/// the counter the next item handle comes from.
#[derive(Debug)]
pub struct PosixMenu {
    /// The name of the menu.
    pub name: String,
    /// The rows of the menu, in insertion order.
    pub items: Vec<PosixMenuItem>,
    /// The handle of the menu itself once attached to a window.
    pub handle: MenuHandle,
    /// The handle the next inserted row will receive.
    pub item_counter: MenuItemHandle,
}

/// Everything a contract says about one menu row: its fields as plain
/// values, and whether it heads a sub-menu.
pub ghost struct MenuItemInfo {
    /// The host-chosen id.
    pub id: int,
    /// The row's text.
    pub label: Seq<char>,
    /// Whether the row can be selected.
    pub enabled: bool,
    /// The shortcut key.
    pub key: Key,
    /// The modifiers the shortcut requires.
    pub modifiers: Modifiers,
    /// The handle the row was inserted under.
    pub handle: int,
    /// Whether the row heads a sub-menu.
    pub has_sub_menu: bool,
}

impl PosixMenuItem {
    /// This row's fields as a contract sees them.
    pub open spec fn spec_info(self) -> MenuItemInfo {
        MenuItemInfo {
            id: self.id as int,
            label: self.label@,
            enabled: self.enabled,
            key: self.key,
            modifiers: self.modifiers,
            handle: self.handle.0 as int,
            has_sub_menu: self.sub_menu is Some,
        }
    }

    /// The rows of the sub-menu this row heads, empty for a plain row.
    pub open spec fn spec_sub_items(self) -> Seq<MenuItemInfo> {
        match self.sub_menu {
            None => Seq::empty(),
            Some(sub) => spec_items_info(sub.items@),
        }
    }

    /// The name of the sub-menu this row heads, empty for a plain row.
    pub open spec fn spec_sub_name(self) -> Seq<char> {
        match self.sub_menu {
            None => Seq::empty(),
            Some(sub) => sub.name@,
        }
    }
}

/// The rows of a menu as a contract sees them.
pub open spec fn spec_items_info(items: Seq<PosixMenuItem>) -> Seq<MenuItemInfo> {
    items.map_values(|it: PosixMenuItem| it.spec_info())
}

/// The position of the first row carrying handle `h`, or -1 when no row
/// does.
pub open spec fn spec_find_handle(items: Seq<MenuItemInfo>, h: int) -> int
    decreases items.len(),
{
    if items.len() == 0 {
        -1
    } else if items[0].handle == h {
        0
    } else {
        let rest = spec_find_handle(items.subrange(1, items.len() as int), h);
        if rest == -1 {
            -1
        } else {
            rest + 1
        }
    }
}

/// When `j` is the first position carrying handle `h`, the search finds `j`.
proof fn lemma_find_handle_at(items: Seq<MenuItemInfo>, h: int, j: int)
    requires
        0 <= j < items.len(),
        items[j].handle == h,
        forall|m: int| 0 <= m < j ==> (#[trigger] items[m]).handle != h,
    ensures
        spec_find_handle(items, h) == j,
    decreases j,
{
    if j == 0 {
    } else {
        let rest = items.subrange(1, items.len() as int);
        lemma_find_handle_at(rest, h, j - 1);
    }
}

/// When no row carries handle `h`, the search reports -1.
proof fn lemma_find_handle_none(items: Seq<MenuItemInfo>, h: int)
    requires
        forall|m: int| 0 <= m < items.len() ==> (#[trigger] items[m]).handle != h,
    ensures
        spec_find_handle(items, h) == -1,
    decreases items.len(),
{
    if items.len() > 0 {
        let rest = items.subrange(1, items.len() as int);
        lemma_find_handle_none(rest, h);
    }
}

/// A detached menu-item descriptor: built up by the host, then inserted into
/// a menu with [`MenuItem::build`] or [`Menu::add_menu_item`].  An id becomes
/// visible in a menu only through such an insertion.
#[derive(Clone, Debug)]
pub struct MenuItem {
    /// The id reported back when the item is selected.
    pub id: usize,
    /// The text shown on the row.
    pub label: String,
    /// Whether the row can be selected.
    pub enabled: bool,
    /// The shortcut key, [`Key::Unknown`] for none.
    pub key: Key,
    /// The modifiers the shortcut requires.
    pub modifiers: Modifiers,
}

impl Default for MenuItem {
    /// A separator-id item with an empty label, enabled, no shortcut.
    fn default() -> (r: MenuItem)
        ensures
            r.id == MENU_ID_SEPARATOR,
            r.label@ == Seq::<char>::empty(),
            r.enabled,
            r.key == Key::Unknown,
            r.modifiers == Modifiers::spec_empty(),
    {
        MenuItem {
            id: MENU_ID_SEPARATOR,
            label: String::new(),
            enabled: true,
            key: Key::Unknown,
            modifiers: Modifiers::empty(),
        }
    }
}

impl MenuItem {
    /// A fresh descriptor named `name` with id `id`, enabled, with no
    /// shortcut.
    pub fn new(name: &str, id: usize) -> (r: MenuItem)
        ensures
            r.id == id,
            r.label@ == name@,
            r.enabled,
            r.key == Key::Unknown,
            r.modifiers == Modifiers::spec_empty(),
    {
        MenuItem {
            id,
            label: name.to_owned(),
            enabled: true,
            key: Key::Unknown,
            modifiers: Modifiers::empty(),
        }
    }

    /// The same descriptor with a shortcut key and modifiers.
    pub fn shortcut(self, key: Key, modifiers: Modifiers) -> (r: MenuItem)
        ensures
            r.id == self.id,
            r.label@ == self.label@,
            r.enabled == self.enabled,
            r.key == key,
            r.modifiers == modifiers,
    {
        MenuItem { key, modifiers, ..self }
    }

    /// The same descriptor turned into a separator row.
    pub fn separator(self) -> (r: MenuItem)
        ensures
            r.id == MENU_ID_SEPARATOR,
            r.label@ == self.label@,
            r.enabled == self.enabled,
            r.key == self.key,
            r.modifiers == self.modifiers,
    {
        MenuItem { id: MENU_ID_SEPARATOR, ..self }
    }

    /// The same descriptor shown enabled or disabled.
    pub fn enabled(self, enabled: bool) -> (r: MenuItem)
        ensures
            r.id == self.id,
            r.label@ == self.label@,
            r.enabled == enabled,
            r.key == self.key,
            r.modifiers == self.modifiers,
    {
        MenuItem { enabled, ..self }
    }

    /// Inserts the finished descriptor into `menu` and returns the fresh
    /// handle, exactly as [`Menu::add_menu_item`] does.
    pub fn build(self, menu: &mut Menu) -> (h: MenuItemHandle)
        requires
            old(menu).wf(),
            old(menu).spec_counter() < u64::MAX,
        ensures
            final(menu).wf(),
            h.0 as int == old(menu).spec_counter(),
            final(menu).spec_counter() == old(menu).spec_counter() + 1,
            final(menu).spec_name() == old(menu).spec_name(),
            final(menu).spec_items() == old(menu).spec_items().push(
                MenuItemInfo {
                    id: self.id as int,
                    label: self.label@,
                    enabled: self.enabled,
                    key: self.key,
                    modifiers: self.modifiers,
                    handle: old(menu).spec_counter(),
                    has_sub_menu: false,
                },
            ),
            forall|i: int|
                0 <= i < old(menu).spec_items().len() ==> (#[trigger] old(
                    menu,
                ).spec_items()[i]).handle != h.0 as int,
            forall|i: int|
                0 <= i < old(menu).spec_items().len() ==> #[trigger] final(menu).spec_sub_items(i)
                    == old(menu).spec_sub_items(i) && final(menu).spec_sub_name(i) == old(
                    menu,
                ).spec_sub_name(i),
            final(menu).spec_sub_items(old(menu).spec_items().len() as int) == Seq::<
                MenuItemInfo,
            >::empty(),
    {
        menu.add_menu_item(&self)
    }
}

/// An in-process menu: an ordered sequence of rows and a monotonically
/// increasing handle counter.
///
/// Handles grow by one per insertion and are never reused, so every handle
/// ever returned by one menu is distinct and a removed handle stays stale
/// forever.
#[derive(Debug)]
pub struct Menu {
    internal: PosixMenu,
}

impl Menu {
    /// The name the menu was created under.
    pub closed spec fn spec_name(self) -> Seq<char> {
        self.internal.name@
    }

    /// The rows of the menu, in insertion order.
    pub closed spec fn spec_items(self) -> Seq<MenuItemInfo> {
        spec_items_info(self.internal.items@)
    }

    /// The handle the next inserted row will receive.
    pub closed spec fn spec_counter(self) -> int {
        self.internal.item_counter.0 as int
    }

    /// The rows of the sub-menu headed by row `i`, empty for a plain row.
    pub closed spec fn spec_sub_items(self, i: int) -> Seq<MenuItemInfo> {
        self.internal.items@[i].spec_sub_items()
    }

    /// The name of the sub-menu headed by row `i`, empty for a plain row.
    pub closed spec fn spec_sub_name(self, i: int) -> Seq<char> {
        self.internal.items@[i].spec_sub_name()
    }

    /// Every row's handle was issued below the counter, and no two rows
    /// share one.
    pub open spec fn wf(self) -> bool {
        &&& forall|i: int|
            0 <= i < self.spec_items().len() ==> (#[trigger] self.spec_items()[i]).handle
                < self.spec_counter()
        &&& forall|i: int, j: int|
            0 <= i < j < self.spec_items().len() ==> (#[trigger] self.spec_items()[i]).handle != (
            #[trigger] self.spec_items()[j]).handle
    }

    /// A fresh, empty menu named `name`.  This backend never fails.
    pub fn new(name: &str) -> (r: Result<Menu, Error>)
        ensures
            r matches Ok(m) && m.wf() && m.spec_name() == name@ && m.spec_items().len() == 0
                && m.spec_counter() == 0,
    {
        Ok(
            Menu {
                internal: PosixMenu {
                    name: name.to_owned(),
                    items: Vec::new(),
                    handle: MenuHandle(0),
                    item_counter: MenuItemHandle(0),
                },
            },
        )
    }

    /// Tears the menu down.  This backend keeps no native resources, so
    /// nothing happens.
    pub fn destroy_menu(&mut self)
        ensures
            *final(self) == *old(self),
    {
    }

    /// Hands out the handle the next insertion will use and advances the
    /// counter.
    fn next_item_handle(&mut self) -> (h: MenuItemHandle)
        requires
            old(self).spec_counter() < u64::MAX,
        ensures
            h.0 as int == old(self).spec_counter(),
            final(self).spec_counter() == old(self).spec_counter() + 1,
            final(self).spec_items() == old(self).spec_items(),
            final(self).spec_name() == old(self).spec_name(),
            final(self).internal.items@ == old(self).internal.items@,
    {
        let handle = self.internal.item_counter;
        self.internal.item_counter = MenuItemHandle(handle.0 + 1);
        handle
    }

    /// A detached descriptor named `name` with id `id`, to be finished with
    /// [`MenuItem::build`].  Until then the menu is untouched and the id is
    /// not visible in it.
    pub fn add_item(&self, name: &str, id: usize) -> (r: MenuItem)
        ensures
            r.id == id,
            r.label@ == name@,
            r.enabled,
            r.key == Key::Unknown,
            r.modifiers == Modifiers::spec_empty(),
    {
        MenuItem::new(name, id)
    }

    /// Appends a row built from `item` and returns its fresh handle: the
    /// counter's value at the call, under which the row is stored.
    pub fn add_menu_item(&mut self, item: &MenuItem) -> (h: MenuItemHandle)
        requires
            old(self).wf(),
            old(self).spec_counter() < u64::MAX,
        ensures
            final(self).wf(),
            h.0 as int == old(self).spec_counter(),
            forall|i: int|
                0 <= i < old(self).spec_items().len() ==> (#[trigger] old(self).spec_items()[i]).handle != h.0 as int,
            final(self).spec_counter() == old(self).spec_counter() + 1,
            final(self).spec_name() == old(self).spec_name(),
            final(self).spec_items() == old(self).spec_items().push(
                MenuItemInfo {
                    id: item.id as int,
                    label: item.label@,
                    enabled: item.enabled,
                    key: item.key,
                    modifiers: item.modifiers,
                    handle: old(self).spec_counter(),
                    has_sub_menu: false,
                },
            ),
            forall|i: int|
                0 <= i < old(self).spec_items().len() ==> #[trigger] final(self).spec_sub_items(i)
                    == old(self).spec_sub_items(i) && final(self).spec_sub_name(i) == old(self).spec_sub_name(i),
            final(self).spec_sub_items(old(self).spec_items().len() as int) == Seq::<
                MenuItemInfo,
            >::empty(),
    {
        let handle = self.next_item_handle();
        self.internal.items.push(
            PosixMenuItem {
                sub_menu: None,
                id: item.id,
                label: item.label.clone(),
                enabled: item.enabled,
                key: item.key,
                modifiers: item.modifiers,
                handle,
            },
        );
        proof {
            assert(final(self).spec_items() =~= old(self).spec_items().push(
                MenuItemInfo {
                    id: item.id as int,
                    label: item.label@,
                    enabled: item.enabled,
                    key: item.key,
                    modifiers: item.modifiers,
                    handle: old(self).spec_counter(),
                    has_sub_menu: false,
                },
            ));
        }
        handle
    }

    /// Appends a separator: a disabled placeholder row carrying the reserved
    /// separator id.  Returns nothing, as the original interface does; the
    /// row still receives a fresh handle.
    pub fn add_separator(&mut self)
        requires
            old(self).wf(),
            old(self).spec_counter() < u64::MAX,
        ensures
            final(self).wf(),
            final(self).spec_counter() == old(self).spec_counter() + 1,
            final(self).spec_name() == old(self).spec_name(),
            final(self).spec_items() == old(self).spec_items().push(
                MenuItemInfo {
                    id: MENU_ID_SEPARATOR as int,
                    label: Seq::empty(),
                    enabled: false,
                    key: Key::Unknown,
                    modifiers: Modifiers::spec_empty(),
                    handle: old(self).spec_counter(),
                    has_sub_menu: false,
                },
            ),
            forall|i: int|
                0 <= i < old(self).spec_items().len() ==> #[trigger] final(self).spec_sub_items(i)
                    == old(self).spec_sub_items(i) && final(self).spec_sub_name(i) == old(self).spec_sub_name(i),
            final(self).spec_sub_items(old(self).spec_items().len() as int) == Seq::<
                MenuItemInfo,
            >::empty(),
    {
        let handle = self.next_item_handle();
        self.internal.items.push(
            PosixMenuItem {
                sub_menu: None,
                id: MENU_ID_SEPARATOR,
                label: String::new(),
                enabled: false,
                key: Key::Unknown,
                modifiers: Modifiers::empty(),
                handle,
            },
        );
        proof {
            assert(final(self).spec_items() =~= old(self).spec_items().push(
                MenuItemInfo {
                    id: MENU_ID_SEPARATOR as int,
                    label: Seq::empty(),
                    enabled: false,
                    key: Key::Unknown,
                    modifiers: Modifiers::spec_empty(),
                    handle: old(self).spec_counter(),
                    has_sub_menu: false,
                },
            ));
        }
    }

    /// Appends a row named `name` that heads a deep copy of `menu`'s current
    /// tree.  Later edits of `menu` do not reach the copy.  The row carries
    /// id 0, is enabled and has no shortcut; the copied level shows `menu`'s
    /// name and rows.
    pub fn add_sub_menu(&mut self, name: &str, menu: &Menu)
        requires
            old(self).wf(),
            old(self).spec_counter() < u64::MAX,
        ensures
            final(self).wf(),
            final(self).spec_counter() == old(self).spec_counter() + 1,
            final(self).spec_name() == old(self).spec_name(),
            final(self).spec_items() == old(self).spec_items().push(
                MenuItemInfo {
                    id: 0,
                    label: name@,
                    enabled: true,
                    key: Key::Unknown,
                    modifiers: Modifiers::spec_empty(),
                    handle: old(self).spec_counter(),
                    has_sub_menu: true,
                },
            ),
            final(self).spec_sub_items(old(self).spec_items().len() as int) == menu.spec_items(),
            final(self).spec_sub_name(old(self).spec_items().len() as int) == menu.spec_name(),
            forall|i: int|
                0 <= i < old(self).spec_items().len() ==> #[trigger] final(self).spec_sub_items(i)
                    == old(self).spec_sub_items(i) && final(self).spec_sub_name(i) == old(self).spec_sub_name(i),
    {
        let handle = self.next_item_handle();
        let copy = clone_menu_tree(&menu.internal);
        self.internal.items.push(
            PosixMenuItem {
                sub_menu: Some(Box::new(copy)),
                id: 0,
                label: name.to_owned(),
                enabled: true,
                key: Key::Unknown,
                modifiers: Modifiers::empty(),
                handle,
            },
        );
        proof {
            assert(final(self).spec_items() =~= old(self).spec_items().push(
                MenuItemInfo {
                    id: 0,
                    label: name@,
                    enabled: true,
                    key: Key::Unknown,
                    modifiers: Modifiers::spec_empty(),
                    handle: old(self).spec_counter(),
                    has_sub_menu: true,
                },
            ));
        }
    }

    /// A deep copy of the menu's current tree as the window-facing record,
    /// ready to be attached to a window.
    pub(crate) fn clone_tree(&self) -> (r: PosixMenu)
        ensures
            r.name@ == self.spec_name(),
            spec_items_info(r.items@) == self.spec_items(),
            r.item_counter.0 as int == self.spec_counter(),
            forall|j: int|
                0 <= j < r.items@.len() ==> (#[trigger] r.items@[j]).spec_sub_items()
                    == self.spec_sub_items(j) && r.items@[j].spec_sub_name() == self.spec_sub_name(
                    j,
                ),
    {
        let r = clone_menu_tree(&self.internal);
        proof {
            assert(spec_items_info(r.items@).len() == spec_items_info(self.internal.items@).len());
            assert(r.items@.len() == self.internal.items@.len());
        }
        r
    }

    /// Removes the first row carrying `item`'s handle; a handle no row
    /// carries (for example one already removed) is silently ignored.  Every
    /// other row keeps its place and order.
    pub fn remove_item(&mut self, item: &MenuItemHandle)
        requires
            old(self).wf(),
        ensures
            final(self).wf(),
            final(self).spec_counter() == old(self).spec_counter(),
            final(self).spec_name() == old(self).spec_name(),
            ({
                let j = spec_find_handle(old(self).spec_items(), item.0 as int);
                if j == -1 {
                    *final(self) == *old(self)
                } else {
                    final(self).spec_items() == old(self).spec_items().remove(j)
                }
            }),
            ({
                let j = spec_find_handle(old(self).spec_items(), item.0 as int);
                j >= 0 ==> {
                    &&& forall|i: int|
                        0 <= i < j ==> #[trigger] final(self).spec_sub_items(i) == old(self).spec_sub_items(i) && final(self).spec_sub_name(i) == old(self).spec_sub_name(i)
                    &&& forall|i: int|
                        j < i < old(self).spec_items().len() ==> #[trigger] final(self).spec_sub_items(i - 1) == old(self).spec_sub_items(i) && final(self).spec_sub_name(i - 1) == old(self).spec_sub_name(i)
                }
            }),
    {
        let ghost old_items = self.spec_items();
        let n = self.internal.items.len();
        let mut i: usize = 0;
        while i < n
            invariant
                n == self.internal.items@.len(),
                i <= n,
                forall|m: int|
                    0 <= m < i ==> (#[trigger] self.spec_items()[m]).handle != item.0 as int,
                old(self) == self,
                old(self).wf(),
            decreases n - i,
        {
            if self.internal.items[i].handle.0 == item.0 {
                proof {
                    lemma_find_handle_at(self.spec_items(), item.0 as int, i as int);
                }
                self.internal.items.remove(i);
                proof {
                    let items0 = old(self).spec_items();
                    let j = i as int;
                    let items1 = self.spec_items();
                    assert(items1 =~= items0.remove(j));
                    items0.remove_ensures(j);
                    assert forall|m1: int, m2: int|
                        0 <= m1 < m2 < items1.len() implies (#[trigger] items1[m1]).handle != (
                    #[trigger] items1[m2]).handle by {
                        let o1: int = if m1 < j {
                            m1
                        } else {
                            m1 + 1
                        };
                        let o2: int = if m2 < j {
                            m2
                        } else {
                            m2 + 1
                        };
                        assert(items1[m1] == items0[o1]);
                        assert(items1[m2] == items0[o2]);
                        assert(0 <= o1 < o2 < items0.len());
                        assert((#[trigger] old(self).spec_items()[o1]).handle != (
                        #[trigger] old(self).spec_items()[o2]).handle);
                    }
                    assert forall|m: int| 0 <= m < items1.len() implies (#[trigger] items1[m]).handle
                        < self.spec_counter() by {
                        let o: int = if m < j {
                            m
                        } else {
                            m + 1
                        };
                        assert(items1[m] == items0[o]);
                        assert((#[trigger] old(self).spec_items()[o]).handle < old(self).spec_counter());
                    }
                }
                return ;
            }
            i = i + 1;
        }
        proof {
            lemma_find_handle_none(self.spec_items(), item.0 as int);
        }
    }
}

/// Deep-copies a menu tree.  The copy shows the same name, counter and
/// rows, and each copied row that heads a sub-menu heads a copy of it in
/// turn.
fn clone_menu_tree(src: &PosixMenu) -> (r: PosixMenu)
    ensures
        r.name@ == src.name@,
        r.handle == src.handle,
        r.item_counter == src.item_counter,
        spec_items_info(r.items@) == spec_items_info(src.items@),
        forall|j: int|
            0 <= j < src.items@.len() ==> (#[trigger] r.items@[j]).spec_sub_items()
                == src.items@[j].spec_sub_items() && r.items@[j].spec_sub_name()
                == src.items@[j].spec_sub_name(),
    decreases *src,
{
    let mut items: Vec<PosixMenuItem> = Vec::new();
    let n = src.items.len();
    let mut i: usize = 0;
    while i < n
        invariant
            n == src.items@.len(),
            i == items@.len(),
            i <= n,
            forall|j: int|
                0 <= j < i ==> (#[trigger] items@[j]).spec_info() == src.items@[j].spec_info(),
            forall|j: int|
                0 <= j < i ==> (#[trigger] items@[j]).spec_sub_items()
                    == src.items@[j].spec_sub_items() && items@[j].spec_sub_name()
                    == src.items@[j].spec_sub_name(),
        decreases n - i,
    {
        let it = &src.items[i];
        let sub: Option<Box<PosixMenu>> = match &it.sub_menu {
            None => None,
            Some(b) => {
                proof {
                    assert(decreases_to!(*src => src.items));
                    assert(decreases_to!(src.items => src.items@));
                    assert(decreases_to!(src.items@ => src.items@[i as int]));
                    assert(decreases_to!(src.items@[i as int] => src.items@[i as int].sub_menu));
                    assert(decreases_to!(src.items@[i as int].sub_menu => **b));
                }
                Some(Box::new(clone_menu_tree(&**b)))
            },
        };
        items.push(
            PosixMenuItem {
                sub_menu: sub,
                id: it.id,
                label: it.label.clone(),
                enabled: it.enabled,
                key: it.key,
                modifiers: it.modifiers,
                handle: it.handle,
            },
        );
        i = i + 1;
    }
    let r = PosixMenu {
        name: src.name.clone(),
        items,
        handle: src.handle,
        item_counter: src.item_counter,
    };
    proof {
        assert(spec_items_info(r.items@) =~= spec_items_info(src.items@));
    }
    r
}

impl Clone for PosixMenu {
    /// A deep copy: the same name, counter and rows, each sub-menu copied in
    /// turn.
    fn clone(&self) -> (r: Self)
        ensures
            r.name@ == self.name@,
            r.handle == self.handle,
            r.item_counter == self.item_counter,
            spec_items_info(r.items@) == spec_items_info(self.items@),
    {
        clone_menu_tree(self)
    }
}

impl Clone for PosixMenuItem {
    /// A deep copy: the same fields, the sub-menu (if any) copied in turn.
    fn clone(&self) -> (r: Self)
        ensures
            r.spec_info() == self.spec_info(),
            r.spec_sub_items() == self.spec_sub_items(),
            r.spec_sub_name() == self.spec_sub_name(),
    {
        let sub: Option<Box<PosixMenu>> = match &self.sub_menu {
            None => None,
            Some(b) => Some(Box::new(clone_menu_tree(&**b))),
        };
        PosixMenuItem {
            sub_menu: sub,
            id: self.id,
            label: self.label.clone(),
            enabled: self.enabled,
            key: self.key,
            modifiers: self.modifiers,
            handle: self.handle,
        }
    }
}

impl Clone for Menu {
    /// A deep copy with the same name, rows and counter.
    fn clone(&self) -> (r: Self)
        ensures
            r.spec_name() == self.spec_name(),
            r.spec_items() == self.spec_items(),
            r.spec_counter() == self.spec_counter(),
    {
        Menu { internal: clone_menu_tree(&self.internal) }
    }
}

/// Every handle a well-formed menu ever returned is pairwise distinct from
/// the others still stored, and differs from the handle the next insertion
/// returns; removing one row therefore never disturbs how any other handle
/// looks up.
pub proof fn lemma_menu_handles_unique(m: Menu)
    requires
        m.wf(),
    ensures
        forall|i: int, j: int|
            0 <= i < j < m.spec_items().len() ==> (#[trigger] m.spec_items()[i]).handle != (
            #[trigger] m.spec_items()[j]).handle,
        forall|i: int|
            0 <= i < m.spec_items().len() ==> (#[trigger] m.spec_items()[i]).handle
                != m.spec_counter(),
{
}

/// Removing the row at position `j` keeps every other row, in order: rows
/// before `j` stay where they were, rows after `j` move up by one.
pub proof fn lemma_remove_keeps_others(items: Seq<MenuItemInfo>, j: int)
    requires
        0 <= j < items.len(),
    ensures
        items.remove(j).len() == items.len() - 1,
        forall|i: int| 0 <= i < j ==> #[trigger] items.remove(j)[i] == items[i],
        forall|i: int| j < i < items.len() ==> #[trigger] items.remove(j)[i - 1] == items[i],
{
}

} // verus!
