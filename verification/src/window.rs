//! The window model: one instance owns the key, mouse, rate and geometry
//! state that the polling interface exposes, plus the menus attached to it.

use vstd::prelude::*;

use crate::error::Error;
use crate::geometry::spec_clamp;
use crate::geometry::spec_map_window_to_buffer;
use crate::geometry::spec_scale_multiple;
use crate::geometry::map_window_to_buffer;
use crate::geometry::Scale;
use crate::geometry::ScaleContext;
use crate::geometry::ScaleMode;
use crate::geometry::MAX_DIMENSION;
use crate::geometry::MAX_WINDOW_DIMENSION;
use crate::key::spec_key_index;
use crate::key::Key;
use crate::key_handler::spec_after_repeat_query;
use crate::key_handler::spec_next_cycle;
use crate::key_handler::spec_on_key_event;
use crate::key_handler::spec_pressed;
use crate::key_handler::spec_release_key;
use crate::key_handler::KeyHandler;
use crate::key_handler::KeyRepeat;
use crate::key_handler::MAX_REPEAT_SETTING;
use crate::menu::spec_items_info;
use crate::menu::Menu;
use crate::menu::MenuHandle;
use crate::menu::MenuItemInfo;
use crate::menu::PosixMenu;
use crate::menu::MENU_ID_SEPARATOR;
use crate::modifiers::Modifiers;
use crate::mouse::spec_apply_mouse_mode;
use crate::mouse::spec_sat_add_i32;
use crate::mouse::MouseButton;
use crate::mouse::MouseHandler;
use crate::mouse::MouseMode;
use crate::rate::RateLimiter;

verus! {

/// The shapes the pointer can take over a window.
#[derive(Clone, Copy, Debug, PartialEq, Eq, Structural)]
pub enum CursorStyle {
    /// The ordinary pointer.
    Arrow,
    /// An I-beam, for text insertion.
    Ibeam,
    /// A cross-hair.
    Crosshair,
    /// A closed hand, for something being dragged.
    ClosedHand,
    /// An open hand, for something draggable.
    OpenHand,
    /// Horizontal resizing.
    ResizeLeftRight,
    /// Vertical resizing.
    ResizeUpDown,
    /// Resizing in all directions.
    ResizeAll,
}

/// A window icon as the X11-style adapters take it: ARGB pixels.
#[derive(Clone, Debug)]
pub struct Icon {
    /// The icon pixels, one `u64` of ARGB data per pixel.
    pub argb: Vec<u64>,
}

/// A callback the host installs to hear raw keyboard input as it arrives.
pub trait InputCallback {
    /// Called when text is added to the window, with one unicode scalar
    /// value; modifier keys are not reported here.
    fn add_char(&mut self, uni_char: u32);

    /// Called whenever a key is pressed (`state` true) or released (`state`
    /// false), modifier keys included.
    fn set_key_state(&mut self, key: Key, state: bool);
}

/// Creation settings for a [`Window`].
#[derive(Clone, Copy, Debug)]
pub struct WindowOptions {
    /// Whether the window is borderless.
    pub borderless: bool,
    /// Whether the window has a title bar.
    pub title: bool,
    /// Whether the window can be resized.
    pub resize: bool,
    /// The pixel scale of the buffer.
    pub scale: Scale,
    /// How the buffer is laid into the window after a resize.
    pub scale_mode: ScaleMode,
    /// Whether the window stays above all other windows.
    pub topmost: bool,
    /// Whether the window may draw transparent pixels; requires
    /// `borderless`.
    pub transparency: bool,
    /// Whether the window is created without any decoration at all.
    pub none: bool,
}

impl Default for WindowOptions {
    /// The settings a plain buffer window wants: decorated, titled, fixed
    /// size, unscaled, stretch on resize, neither topmost nor transparent.
    fn default() -> (r: WindowOptions)
        ensures
            !r.borderless,
            r.title,
            !r.resize,
            r.scale == Scale::X1,
            r.scale_mode == ScaleMode::Stretch,
            !r.topmost,
            !r.transparency,
            !r.none,
    {
        WindowOptions {
            borderless: false,
            title: true,
            resize: false,
            scale: Scale::X1,
            scale_mode: ScaleMode::Stretch,
            topmost: false,
            transparency: false,
            none: false,
        }
    }
}

/// Everything a contract says about a window's state.
pub ghost struct WindowView {
    /// The geometry the buffer is presented with.
    pub ctx: ScaleContext,
    /// The window position on the screen, x axis.
    pub pos_x: int,
    /// The window position on the screen, y axis.
    pub pos_y: int,
    /// The color painted outside the buffer, as `0x00RRGGBB`.
    pub bg_color: u32,
    /// The pointer shape over the window.
    pub cursor_style: CursorStyle,
    /// Whether the pointer is visible over the window.
    pub cursor_visible: bool,
    /// Whether the window stays above all other windows.
    pub topmost: bool,
    /// Whether the window has the input focus.
    pub active: bool,
    /// Whether the window is still open.
    pub open: bool,
    /// The window title.
    pub title: Seq<char>,
    /// The icon pixels, once one was set.
    pub icon: Option<Seq<u64>>,
    /// The options the window was created with.
    pub opts: WindowOptions,
    /// The keyboard state.
    pub keys: KeyHandler,
    /// The mouse state.
    pub mouse: MouseHandler,
    /// The update-rate limiter.
    pub rate: RateLimiter,
    /// The menus attached to the window, in attachment order.
    pub menus: Seq<PosixMenu>,
    /// The handle the next attached menu will receive.
    pub menu_counter: int,
    /// Whether an input callback is installed.
    pub callback_installed: bool,
}

/// The position of the first menu carrying handle `h`, or -1 when none does.
pub open spec fn spec_find_menu(menus: Seq<PosixMenu>, h: int) -> int
    decreases menus.len(),
{
    if menus.len() == 0 {
        -1
    } else if menus[0].handle.0 == h {
        0
    } else {
        let rest = spec_find_menu(menus.subrange(1, menus.len() as int), h);
        if rest == -1 {
            -1
        } else {
            rest + 1
        }
    }
}

/// When `j` is the first position carrying handle `h`, the search finds `j`.
proof fn lemma_find_menu_at(menus: Seq<PosixMenu>, h: int, j: int)
    requires
        0 <= j < menus.len(),
        menus[j].handle.0 == h,
        forall|m: int| 0 <= m < j ==> (#[trigger] menus[m]).handle.0 != h,
    ensures
        spec_find_menu(menus, h) == j,
    decreases j,
{
    if j > 0 {
        lemma_find_menu_at(menus.subrange(1, menus.len() as int), h, j - 1);
    }
}

/// When no menu carries handle `h`, the search reports -1.
proof fn lemma_find_menu_none(menus: Seq<PosixMenu>, h: int)
    requires
        forall|m: int| 0 <= m < menus.len() ==> (#[trigger] menus[m]).handle.0 != h,
    ensures
        spec_find_menu(menus, h) == -1,
    decreases menus.len(),
{
    if menus.len() > 0 {
        lemma_find_menu_none(menus.subrange(1, menus.len() as int), h);
    }
}

/// Whether the keyboard state satisfies a shortcut's modifier set: each
/// required modifier has its left or right key down.
pub open spec fn spec_mods_satisfied(keys: KeyHandler, mods: Modifiers) -> bool {
    &&& mods.spec_shift() ==> (keys.spec_state(Key::LeftShift).is_down || keys.spec_state(
        Key::RightShift,
    ).is_down)
    &&& mods.spec_ctrl() ==> (keys.spec_state(Key::LeftCtrl).is_down || keys.spec_state(
        Key::RightCtrl,
    ).is_down)
    &&& mods.spec_alt() ==> (keys.spec_state(Key::LeftAlt).is_down || keys.spec_state(
        Key::RightAlt,
    ).is_down)
    &&& mods.spec_logo() ==> (keys.spec_state(Key::LeftSuper).is_down || keys.spec_state(
        Key::RightSuper,
    ).is_down)
}

/// Whether one menu row's shortcut counts as pressed against the keyboard
/// state: a selectable row with a real shortcut key whose down edge arrived
/// this cycle, with the required modifiers held.
pub open spec fn spec_shortcut_pressed(keys: KeyHandler, it: MenuItemInfo) -> bool {
    &&& it.key != Key::Unknown
    &&& it.enabled
    &&& it.id != MENU_ID_SEPARATOR as int
    &&& keys.spec_state(it.key).pressed_this_cycle
    &&& spec_mods_satisfied(keys, it.modifiers)
}

/// A window: the pollable input state, presentation geometry and timing of
/// one native window, and the menus attached to it.
///
/// Platform adapters feed raw events in through the `on_raw_*` methods; the
/// host polls the state between two `update` calls.  The actual native
/// surface, the blit and the waiting live with the adapter; every rule that
/// decides what the host observes is specified here.
pub struct Window {
    ctx: ScaleContext,
    pos_x: isize,
    pos_y: isize,
    bg_color: u32,
    cursor_style: CursorStyle,
    cursor_visible: bool,
    topmost_flag: bool,
    active: bool,
    open: bool,
    title: String,
    icon: Option<Icon>,
    opts: WindowOptions,
    keys: KeyHandler,
    mouse: MouseHandler,
    rate: RateLimiter,
    menus: Vec<PosixMenu>,
    menu_counter: u64,
    callback: Option<Box<dyn InputCallback>>,
}

impl View for Window {
    type V = WindowView;

    closed spec fn view(&self) -> WindowView {
        WindowView {
            ctx: self.ctx,
            pos_x: self.pos_x as int,
            pos_y: self.pos_y as int,
            bg_color: self.bg_color,
            cursor_style: self.cursor_style,
            cursor_visible: self.cursor_visible,
            topmost: self.topmost_flag,
            active: self.active,
            open: self.open,
            title: self.title@,
            icon: match self.icon {
                None => None,
                Some(ic) => Some(ic.argb@),
            },
            opts: self.opts,
            keys: self.keys,
            mouse: self.mouse,
            rate: self.rate,
            menus: self.menus@,
            menu_counter: self.menu_counter as int,
            callback_installed: self.callback is Some,
        }
    }
}

impl Window {
    /// The geometry, keyboard and menu state are all well formed: sizes
    /// within limits, one key state per key, menu handles issued below the
    /// counter and pairwise distinct.
    pub open spec fn wf(self) -> bool {
        &&& self@.ctx.wf()
        &&& self@.keys.wf()
        &&& forall|i: int|
            0 <= i < self@.menus.len() ==> (#[trigger] self@.menus[i]).handle.0
                < self@.menu_counter
        &&& forall|i: int, j: int|
            0 <= i < j < self@.menus.len() ==> (#[trigger] self@.menus[i]).handle.0 != (
            #[trigger] self@.menus[j]).handle.0
    }

    /// Opens a window showing a `width` by `height` buffer under `opts`.
    ///
    /// Creation is refused, with `Error::WindowCreate`, when transparency is
    /// asked for without borderless, or when either dimension is zero or
    /// beyond [`MAX_DIMENSION`].  The window opens sized to the buffer times
    /// the fixed scale multiple; `Scale::FitScreen` opens at one, since the
    /// model window has no screen to measure — adapters size a real window
    /// with [`crate::window_size_for`] instead.  The window starts open,
    /// active, with every key up, the mouse at the origin, the default
    /// update interval, and no menus.
    pub fn new(name: &str, width: usize, height: usize, opts: WindowOptions) -> (r: Result<
        Window,
        Error,
    >)
        ensures
            ({
                let ok = !(opts.transparency && !opts.borderless) && 1 <= width <= MAX_DIMENSION
                    && 1 <= height <= MAX_DIMENSION;
                match r {
                    Ok(w) => {
                        let m = spec_scale_multiple(
                            opts.scale,
                            width as int,
                            height as int,
                            width as int,
                            height as int,
                        );
                        &&& ok
                        &&& w.wf()
                        &&& w@.title == name@
                        &&& w@.ctx.scale == opts.scale
                        &&& w@.ctx.scale_mode == opts.scale_mode
                        &&& w@.ctx.buffer_w == width
                        &&& w@.ctx.buffer_h == height
                        &&& w@.ctx.window_w == width * m
                        &&& w@.ctx.window_h == height * m
                        &&& w@.pos_x == 0 && w@.pos_y == 0
                        &&& w@.bg_color == 0
                        &&& w@.cursor_style == CursorStyle::Arrow
                        &&& w@.cursor_visible
                        &&& w@.topmost == opts.topmost
                        &&& w@.active
                        &&& w@.open
                        &&& w@.icon is None
                        &&& w@.opts == opts
                        &&& forall|k: Key|
                            #[trigger] w@.keys.spec_state(k)
                                == crate::key_handler::spec_initial_key_state()
                        &&& w@.keys.spec_delay() == crate::key_handler::DEFAULT_KEY_REPEAT_DELAY
                        &&& w@.keys.spec_rate() == crate::key_handler::DEFAULT_KEY_REPEAT_RATE
                        &&& w@.mouse.spec_x() == 0 && w@.mouse.spec_y() == 0
                        &&& forall|b: MouseButton| !w@.mouse.spec_down(b)
                        &&& w@.mouse.spec_scroll_x() == 0 && w@.mouse.spec_scroll_y() == 0
                        &&& w@.rate.spec_target() == Some(crate::rate::DEFAULT_UPDATE_INTERVAL)
                        &&& w@.rate.spec_last_tick() == 0
                        &&& w@.menus.len() == 0
                        &&& w@.menu_counter == 0
                        &&& !w@.callback_installed
                    },
                    Err(e) => !ok && e is WindowCreate,
                }
            }),
    {
        if opts.transparency && !opts.borderless {
            return Err(
                Error::WindowCreate("Window transparency requires the borderless property".to_owned()),
            );
        }
        if width == 0 || height == 0 || width > MAX_DIMENSION || height > MAX_DIMENSION {
            return Err(Error::WindowCreate("Window dimensions are out of range".to_owned()));
        }
        let (window_w, window_h) = crate::geometry::window_size_for(
            opts.scale,
            width,
            height,
            width,
            height,
        );
        Ok(
            Window {
                ctx: ScaleContext {
                    scale: opts.scale,
                    scale_mode: opts.scale_mode,
                    buffer_w: width,
                    buffer_h: height,
                    window_w,
                    window_h,
                },
                pos_x: 0,
                pos_y: 0,
                bg_color: 0,
                cursor_style: CursorStyle::Arrow,
                cursor_visible: true,
                topmost_flag: opts.topmost,
                active: true,
                open: true,
                title: name.to_owned(),
                icon: None,
                opts,
                keys: KeyHandler::new(),
                mouse: MouseHandler::new(),
                rate: RateLimiter::new(0),
                menus: Vec::new(),
                menu_counter: 0,
                callback: None,
            },
        )
    }

    /// Sets the window title.
    pub fn set_title(&mut self, title: &str)
        ensures
            final(self)@ == (WindowView { title: title@, ..old(self)@ }),
    {
        self.title = title.to_owned();
    }

    /// Sets the window icon.
    pub fn set_icon(&mut self, icon: Icon)
        ensures
            final(self)@ == (WindowView { icon: Some(icon.argb@), ..old(self)@ }),
    {
        self.icon = Some(icon);
    }

    /// Runs one update at time `now` (microseconds) and returns how many
    /// microseconds the caller must wait before pumping the OS event queue.
    ///
    /// A closed window does nothing and owes no wait.  Otherwise a new poll
    /// cycle begins — every key's pressed and released marks are cleared —
    /// and the rate limiter is ticked; the mouse state, including any unread
    /// scroll delta, carries over.
    pub fn update(&mut self, now: u64) -> (wait: u64)
        requires
            old(self).wf(),
        ensures
            final(self).wf(),
            !old(self)@.open ==> wait == 0 && *final(self) == *old(self),
            old(self)@.open ==> {
                &&& forall|k: Key|
                    #[trigger] final(self)@.keys.spec_state(k) == spec_next_cycle(
                        old(self)@.keys.spec_state(k),
                    )
                &&& final(self)@.keys.spec_delay() == old(self)@.keys.spec_delay()
                &&& final(self)@.keys.spec_rate() == old(self)@.keys.spec_rate()
                &&& final(self)@.rate.spec_target() == old(self)@.rate.spec_target()
                &&& (old(self)@.rate.spec_target() matches Some(d) ==> {
                    let elapsed = if now as int >= old(self)@.rate.spec_last_tick() as int {
                        now as int - old(self)@.rate.spec_last_tick() as int
                    } else {
                        0
                    };
                    &&& wait == (if elapsed >= d as int {
                        0
                    } else {
                        d as int - elapsed
                    })
                    &&& final(self)@.rate.spec_last_tick() as int == (if now + wait <= u64::MAX {
                        now + wait
                    } else {
                        u64::MAX as int
                    })
                })
                &&& (old(self)@.rate.spec_target() is None ==> wait == 0 && final(self)@.rate
                    == old(self)@.rate)
                &&& final(self)@ == (WindowView {
                    keys: final(self)@.keys,
                    rate: final(self)@.rate,
                    ..old(self)@
                })
            },
    {
        if !self.open {
            return 0;
        }
        self.keys.next_cycle();
        self.rate.tick(now)
    }

    /// Runs one update at time `now` presenting a `width` by `height` buffer
    /// of `0xAARRGGBB` pixels, and returns the wait owed before the next
    /// event-queue pump, as [`update`](Self::update) does.
    ///
    /// A closed window does nothing and returns `Ok(0)`.  The call fails
    /// with `Error::UpdateFailed`, changing nothing, exactly when a
    /// dimension is zero or beyond [`MAX_DIMENSION`], or the buffer holds
    /// fewer than `width * height` pixels.  On success the presented buffer
    /// size becomes the window's buffer size for later coordinate mapping.
    pub fn update_with_buffer(&mut self, buffer: &[u32], width: usize, height: usize, now: u64) -> (r:
        Result<u64, Error>)
        requires
            old(self).wf(),
        ensures
            final(self).wf(),
            !old(self)@.open ==> r == Ok::<u64, Error>(0u64) && *final(self) == *old(self),
            old(self)@.open && !(1 <= width <= MAX_DIMENSION && 1 <= height <= MAX_DIMENSION
                && width * height <= buffer@.len()) ==> ({
                &&& r matches Err(e)
                &&& e is UpdateFailed
                &&& *final(self) == *old(self)
            }),
            old(self)@.open && (1 <= width <= MAX_DIMENSION && 1 <= height <= MAX_DIMENSION
                && width * height <= buffer@.len()) ==> {
                &&& r matches Ok(wait)
                &&& forall|k: Key|
                    #[trigger] final(self)@.keys.spec_state(k) == spec_next_cycle(
                        old(self)@.keys.spec_state(k),
                    )
                &&& final(self)@.keys.spec_delay() == old(self)@.keys.spec_delay()
                &&& final(self)@.keys.spec_rate() == old(self)@.keys.spec_rate()
                &&& final(self)@.rate.spec_target() == old(self)@.rate.spec_target()
                &&& (old(self)@.rate.spec_target() matches Some(d) ==> {
                    let elapsed = if now as int >= old(self)@.rate.spec_last_tick() as int {
                        now as int - old(self)@.rate.spec_last_tick() as int
                    } else {
                        0
                    };
                    &&& wait == (if elapsed >= d as int {
                        0
                    } else {
                        d as int - elapsed
                    })
                    &&& final(self)@.rate.spec_last_tick() as int == (if now + wait <= u64::MAX {
                        now + wait
                    } else {
                        u64::MAX as int
                    })
                })
                &&& (old(self)@.rate.spec_target() is None ==> wait == 0 && final(self)@.rate
                    == old(self)@.rate)
                &&& final(self)@.ctx == (ScaleContext {
                    buffer_w: width,
                    buffer_h: height,
                    ..old(self)@.ctx
                })
                &&& final(self)@ == (WindowView {
                    keys: final(self)@.keys,
                    rate: final(self)@.rate,
                    ctx: final(self)@.ctx,
                    ..old(self)@
                })
            },
    {
        if !self.open {
            return Ok(0);
        }
        if width == 0 || height == 0 || width > MAX_DIMENSION || height > MAX_DIMENSION {
            return Err(Error::UpdateFailed("Buffer dimensions are out of range".to_owned()));
        }
        proof {
            assert(0 <= width * height <= 0x0100_0000 * 0x0100_0000) by (nonlinear_arith)
                requires
                    0 <= width <= 0x0100_0000,
                    0 <= height <= 0x0100_0000,
            ;
        }
        let needed: u64 = (width as u64) * (height as u64);
        if (buffer.len() as u64) < needed {
            return Err(Error::UpdateFailed("Buffer is smaller than its dimensions claim".to_owned()));
        }
        self.ctx.buffer_w = width;
        self.ctx.buffer_h = height;
        self.keys.next_cycle();
        let wait = self.rate.tick(now);
        Ok(wait)
    }

    /// Whether the window is still open; a closed window ignores updates.
    pub fn is_open(&self) -> (r: bool)
        ensures
            r == self@.open,
    {
        self.open
    }

    /// Moves the window to the screen position `(x, y)`.
    pub fn set_position(&mut self, x: isize, y: isize)
        ensures
            final(self)@ == (WindowView { pos_x: x as int, pos_y: y as int, ..old(self)@ }),
    {
        self.pos_x = x;
        self.pos_y = y;
    }

    /// The window's position on the screen.
    pub fn get_position(&self) -> (r: (isize, isize))
        ensures
            r.0 as int == self@.pos_x,
            r.1 as int == self@.pos_y,
    {
        (self.pos_x, self.pos_y)
    }

    /// The window's current size in window pixels.
    pub fn get_size(&self) -> (r: (usize, usize))
        ensures
            r.0 == self@.ctx.window_w,
            r.1 == self@.ctx.window_h,
    {
        (self.ctx.window_w, self.ctx.window_h)
    }

    /// Keeps the window above all other windows, or stops doing so.
    pub fn topmost(&mut self, topmost: bool)
        ensures
            final(self)@ == (WindowView { topmost: topmost, ..old(self)@ }),
    {
        self.topmost_flag = topmost;
    }

    /// Sets the color painted around the buffer when the scale mode leaves a
    /// margin.  Each channel is forced into `0..=255`; the stored color is
    /// `red * 65536 + green * 256 + blue`.
    pub fn set_background_color(&mut self, red: usize, green: usize, blue: usize)
        ensures
            final(self)@ == (WindowView {
                bg_color: (spec_clamp(0, red as int, 255) * 65536 + spec_clamp(0, green as int, 255)
                    * 256 + spec_clamp(0, blue as int, 255)) as u32,
                ..old(self)@
            }),
    {
        let r = crate::geometry::clamp(0, red, 255);
        let g = crate::geometry::clamp(0, green, 255);
        let b = crate::geometry::clamp(0, blue, 255);
        self.bg_color = (r * 65536 + g * 256 + b) as u32;
    }

    /// Shows or hides the pointer while it is over the window.
    pub fn set_cursor_visibility(&mut self, visibility: bool)
        ensures
            final(self)@ == (WindowView { cursor_visible: visibility, ..old(self)@ }),
    {
        self.cursor_visible = visibility;
    }

    /// Bounds how often `update` lets the host pump the OS event queue: at
    /// most once per `time` microseconds, or unboundedly for `None`.
    pub fn limit_update_rate(&mut self, time: Option<u64>)
        ensures
            final(self)@.rate.spec_target() == time,
            final(self)@.rate.spec_last_tick() == old(self)@.rate.spec_last_tick(),
            final(self)@ == (WindowView { rate: final(self)@.rate, ..old(self)@ }),
    {
        self.rate.set_rate(time);
    }

    /// The pointer position mapped back into buffer coordinates through the
    /// window's scale mode, then filtered by `mode` against the buffer
    /// bounds.
    pub fn get_mouse_pos(&self, mode: MouseMode) -> (r: Option<(i64, i64)>)
        requires
            self.wf(),
        ensures
            ({
                let mapped = spec_map_window_to_buffer(
                    self@.ctx,
                    self@.mouse.spec_x(),
                    self@.mouse.spec_y(),
                );
                let expected = spec_apply_mouse_mode(
                    mapped.0,
                    mapped.1,
                    self@.ctx.buffer_w as int,
                    self@.ctx.buffer_h as int,
                    mode,
                );
                match r {
                    Some(p) => expected == Some((p.0 as int, p.1 as int)),
                    None => expected is None,
                }
            }),
    {
        let (px, py) = self.mouse.raw_pos();
        let (bx, by) = map_window_to_buffer(&self.ctx, px, py);
        crate::mouse::apply_mouse_mode(bx, by, self.ctx.buffer_w, self.ctx.buffer_h, mode)
    }

    /// The raw pointer position in window coordinates, filtered by `mode`
    /// against the window bounds; no scale transform is applied.
    pub fn get_unscaled_mouse_pos(&self, mode: MouseMode) -> (r: Option<(i64, i64)>)
        requires
            self.wf(),
        ensures
            ({
                let expected = spec_apply_mouse_mode(
                    self@.mouse.spec_x(),
                    self@.mouse.spec_y(),
                    self@.ctx.window_w as int,
                    self@.ctx.window_h as int,
                    mode,
                );
                match r {
                    Some(p) => expected == Some((p.0 as int, p.1 as int)),
                    None => expected is None,
                }
            }),
    {
        self.mouse.unscaled_pos(mode, self.ctx.window_w, self.ctx.window_h)
    }

    /// Whether `button` is currently held down.
    pub fn get_mouse_down(&self, button: MouseButton) -> (r: bool)
        ensures
            r == self@.mouse.spec_down(button),
    {
        self.mouse.get_mouse_down(button)
    }

    /// The scroll delta accumulated since the previous read, consumed by the
    /// read: without an intervening scroll event the next call yields
    /// `None`.
    pub fn get_scroll_wheel(&mut self) -> (r: Option<(i32, i32)>)
        ensures
            old(self)@.mouse.spec_scroll_x() == 0 && old(self)@.mouse.spec_scroll_y() == 0 ==> r
                is None && *final(self) == *old(self),
            !(old(self)@.mouse.spec_scroll_x() == 0 && old(self)@.mouse.spec_scroll_y() == 0) ==> {
                &&& r matches Some(d)
                &&& d.0 as int == old(self)@.mouse.spec_scroll_x()
                &&& d.1 as int == old(self)@.mouse.spec_scroll_y()
                &&& final(self)@.mouse.spec_scroll_x() == 0
                &&& final(self)@.mouse.spec_scroll_y() == 0
                &&& final(self)@.mouse.spec_x() == old(self)@.mouse.spec_x()
                &&& final(self)@.mouse.spec_y() == old(self)@.mouse.spec_y()
                &&& forall|b: MouseButton|
                    final(self)@.mouse.spec_down(b) == old(self)@.mouse.spec_down(b)
                &&& final(self)@ == (WindowView { mouse: final(self)@.mouse, ..old(self)@ })
            },
    {
        self.mouse.get_scroll_wheel()
    }

    /// Changes the pointer shape shown over the window.
    pub fn set_cursor_style(&mut self, cursor: CursorStyle)
        ensures
            final(self)@ == (WindowView { cursor_style: cursor, ..old(self)@ }),
    {
        self.cursor_style = cursor;
    }

    /// The keys currently down, in enumeration order.
    pub fn get_keys(&self) -> (r: Vec<Key>)
        requires
            self.wf(),
        ensures
            forall|k: Key| #[trigger] r@.contains(k) <==> self@.keys.spec_state(k).is_down,
            forall|j1: int, j2: int|
                0 <= j1 < j2 < r@.len() ==> spec_key_index(#[trigger] r@[j1]) < spec_key_index(
                    #[trigger] r@[j2],
                ),
    {
        self.keys.get_keys()
    }

    /// The keys counting as pressed at time `now`, in enumeration order;
    /// [`KeyRepeat`] decides whether auto-repeats of held keys count.  With
    /// repeats, every firing repeat advances its key's bookmark.
    pub fn get_keys_pressed(&mut self, repeat: KeyRepeat, now: u64) -> (r: Vec<Key>)
        requires
            old(self).wf(),
        ensures
            final(self).wf(),
            forall|k: Key|
                #[trigger] r@.contains(k) <==> spec_pressed(
                    old(self)@.keys.spec_state(k),
                    repeat,
                    old(self)@.keys.spec_delay() as int,
                    old(self)@.keys.spec_rate() as int,
                    now as int,
                ),
            forall|j1: int, j2: int|
                0 <= j1 < j2 < r@.len() ==> spec_key_index(#[trigger] r@[j1]) < spec_key_index(
                    #[trigger] r@[j2],
                ),
            forall|k: Key|
                #[trigger] final(self)@.keys.spec_state(k) == (if repeat == KeyRepeat::Yes {
                    spec_after_repeat_query(
                        old(self)@.keys.spec_state(k),
                        old(self)@.keys.spec_delay() as int,
                        old(self)@.keys.spec_rate() as int,
                        now as int,
                    )
                } else {
                    old(self)@.keys.spec_state(k)
                }),
            final(self)@.keys.spec_delay() == old(self)@.keys.spec_delay(),
            final(self)@.keys.spec_rate() == old(self)@.keys.spec_rate(),
            final(self)@ == (WindowView { keys: final(self)@.keys, ..old(self)@ }),
    {
        self.keys.get_keys_pressed(repeat, now)
    }

    /// The keys that saw an up edge in the current poll cycle, in
    /// enumeration order.
    pub fn get_keys_released(&self) -> (r: Vec<Key>)
        requires
            self.wf(),
        ensures
            forall|k: Key|
                #[trigger] r@.contains(k) <==> self@.keys.spec_state(k).released_this_cycle,
            forall|j1: int, j2: int|
                0 <= j1 < j2 < r@.len() ==> spec_key_index(#[trigger] r@[j1]) < spec_key_index(
                    #[trigger] r@[j2],
                ),
    {
        self.keys.get_keys_released()
    }

    /// Whether `key` is physically down.
    pub fn is_key_down(&self, key: Key) -> (r: bool)
        requires
            self.wf(),
        ensures
            r == self@.keys.spec_state(key).is_down,
    {
        self.keys.is_key_down(key)
    }

    /// Whether `key` counts as pressed at time `now`: true in the cycle of
    /// its down edge and, with `KeyRepeat::Yes`, whenever an auto-repeat
    /// fires; a firing repeat advances the key's bookmark.
    pub fn is_key_pressed(&mut self, key: Key, repeat: KeyRepeat, now: u64) -> (r: bool)
        requires
            old(self).wf(),
        ensures
            final(self).wf(),
            r == spec_pressed(
                old(self)@.keys.spec_state(key),
                repeat,
                old(self)@.keys.spec_delay() as int,
                old(self)@.keys.spec_rate() as int,
                now as int,
            ),
            final(self)@.keys.spec_state(key) == (if repeat == KeyRepeat::Yes {
                spec_after_repeat_query(
                    old(self)@.keys.spec_state(key),
                    old(self)@.keys.spec_delay() as int,
                    old(self)@.keys.spec_rate() as int,
                    now as int,
                )
            } else {
                old(self)@.keys.spec_state(key)
            }),
            forall|k: Key|
                k != key ==> #[trigger] final(self)@.keys.spec_state(k) == old(self)@.keys.spec_state(k),
            final(self)@.keys.spec_delay() == old(self)@.keys.spec_delay(),
            final(self)@.keys.spec_rate() == old(self)@.keys.spec_rate(),
            final(self)@ == (WindowView { keys: final(self)@.keys, ..old(self)@ }),
    {
        self.keys.is_key_pressed(key, repeat, now)
    }

    /// Whether `key` saw an up edge in the current poll cycle.
    pub fn is_key_released(&self, key: Key) -> (r: bool)
        requires
            self.wf(),
        ensures
            r == self@.keys.spec_state(key).released_this_cycle,
    {
        self.keys.is_key_released(key)
    }

    /// Sets how long a key must stay down before auto-repeat begins, in
    /// microseconds, up to [`MAX_REPEAT_SETTING`].
    pub fn set_key_repeat_delay(&mut self, delay: u64)
        requires
            old(self).wf(),
            delay <= MAX_REPEAT_SETTING,
        ensures
            final(self).wf(),
            final(self)@.keys.spec_delay() == delay,
            final(self)@.keys.spec_rate() == old(self)@.keys.spec_rate(),
            final(self)@.keys.spec_states() == old(self)@.keys.spec_states(),
            final(self)@ == (WindowView { keys: final(self)@.keys, ..old(self)@ }),
    {
        self.keys.set_key_repeat_delay(delay);
    }

    /// Sets the pause between two auto-repeats of a held key, in
    /// microseconds, up to [`MAX_REPEAT_SETTING`].
    pub fn set_key_repeat_rate(&mut self, rate: u64)
        requires
            old(self).wf(),
            rate <= MAX_REPEAT_SETTING,
        ensures
            final(self).wf(),
            final(self)@.keys.spec_rate() == rate,
            final(self)@.keys.spec_delay() == old(self)@.keys.spec_delay(),
            final(self)@.keys.spec_states() == old(self)@.keys.spec_states(),
            final(self)@ == (WindowView { keys: final(self)@.keys, ..old(self)@ }),
    {
        self.keys.set_key_repeat_rate(rate);
    }

    /// Whether this window currently has the input focus.
    pub fn is_active(&mut self) -> (r: bool)
        ensures
            r == old(self)@.active,
            *final(self) == *old(self),
    {
        self.active
    }

    /// Installs the callback that hears raw keyboard input as it arrives,
    /// replacing any callback installed before.
    pub fn set_input_callback(&mut self, callback: Box<dyn InputCallback>)
        ensures
            final(self)@ == (WindowView { callback_installed: true, ..old(self)@ }),
    {
        self.callback = Some(callback);
    }

    /// Attaches a deep copy of `menu` to the window and returns its fresh
    /// handle: menu handles count up from zero per window and are never
    /// reused.
    pub fn add_menu(&mut self, menu: &Menu) -> (h: MenuHandle)
        requires
            old(self).wf(),
            old(self)@.menu_counter < u64::MAX,
        ensures
            final(self).wf(),
            h.0 as int == old(self)@.menu_counter,
            final(self)@.menu_counter == old(self)@.menu_counter + 1,
            final(self)@.menus.len() == old(self)@.menus.len() + 1,
            forall|i: int|
                0 <= i < old(self)@.menus.len() ==> #[trigger] final(self)@.menus[i] == old(self)@.menus[i],
            ({
                let last = final(self)@.menus[old(self)@.menus.len() as int];
                &&& last.name@ == menu.spec_name()
                &&& spec_items_info(last.items@) == menu.spec_items()
                &&& last.handle.0 as int == old(self)@.menu_counter
                &&& last.item_counter.0 as int == menu.spec_counter()
                &&& forall|j: int|
                    0 <= j < last.items@.len() ==> (#[trigger] last.items@[j]).spec_sub_items()
                        == menu.spec_sub_items(j) && last.items@[j].spec_sub_name()
                        == menu.spec_sub_name(j)
            }),
            final(self)@ == (WindowView {
                menus: final(self)@.menus,
                menu_counter: final(self)@.menu_counter,
                ..old(self)@
            }),
    {
        let h = MenuHandle(self.menu_counter);
        self.menu_counter = self.menu_counter + 1;
        let mut copy = menu.clone_tree();
        copy.handle = h;
        self.menus.push(copy);
        h
    }

    /// Detaches the first menu carrying `handle`; a handle no menu carries
    /// (for example one already removed) is silently ignored.  Every other
    /// menu keeps its place and order.
    pub fn remove_menu(&mut self, handle: MenuHandle)
        requires
            old(self).wf(),
        ensures
            final(self).wf(),
            final(self)@.menu_counter == old(self)@.menu_counter,
            ({
                let j = spec_find_menu(old(self)@.menus, handle.0 as int);
                if j == -1 {
                    *final(self) == *old(self)
                } else {
                    final(self)@.menus == old(self)@.menus.remove(j)
                }
            }),
            final(self)@ == (WindowView { menus: final(self)@.menus, ..old(self)@ }),
    {
        let n = self.menus.len();
        let mut i: usize = 0;
        while i < n
            invariant
                n == self.menus@.len(),
                i <= n,
                forall|m: int| 0 <= m < i ==> (#[trigger] self.menus@[m]).handle.0 != handle.0,
                old(self) == self,
                old(self).wf(),
            decreases n - i,
        {
            if self.menus[i].handle.0 == handle.0 {
                proof {
                    lemma_find_menu_at(self.menus@, handle.0 as int, i as int);
                }
                self.menus.remove(i);
                proof {
                    let menus0 = old(self)@.menus;
                    let j = i as int;
                    menus0.remove_ensures(j);
                    assert forall|m1: int, m2: int|
                        0 <= m1 < m2 < self.menus@.len() implies (#[trigger] self.menus@[m1]).handle.0
                        != (#[trigger] self.menus@[m2]).handle.0 by {
                        let o1: int = if m1 < j {
                            m1
                        } else {
                            m1 + 1
                        };
                        let o2: int = if m2 < j {
                            m2
                        } else {
                            m2 + 1
                        };
                        assert(self.menus@[m1] == menus0[o1]);
                        assert(self.menus@[m2] == menus0[o2]);
                        assert((#[trigger] old(self)@.menus[o1]).handle.0 != (#[trigger] old(self)@.menus[o2]).handle.0);
                    }
                    assert forall|m: int| 0 <= m < self.menus@.len() implies (
                    #[trigger] self.menus@[m]).handle.0 < self@.menu_counter by {
                        let o: int = if m < j {
                            m
                        } else {
                            m + 1
                        };
                        assert(self.menus@[m] == menus0[o]);
                        assert((#[trigger] old(self)@.menus[o]).handle.0 < old(self)@.menu_counter);
                    }
                }
                return ;
            }
            i = i + 1;
        }
        proof {
            lemma_find_menu_none(self.menus@, handle.0 as int);
        }
    }

    /// The menus attached to the window, in attachment order.  This backend
    /// always has them; platforms with native menus would answer `None`.
    pub fn get_posix_menus(&self) -> (r: Option<&Vec<PosixMenu>>)
        ensures
            r matches Some(m) && m@ == self@.menus,
    {
        Some(&self.menus)
    }

    /// The menus attached to the window, under the name this interface had
    /// before it was renamed for all POSIX-like systems; answers as
    /// [`get_posix_menus`](Self::get_posix_menus) does.
    pub fn get_unix_menus(&self) -> (r: Option<&Vec<PosixMenu>>)
        ensures
            r matches Some(m) && m@ == self@.menus,
    {
        self.get_posix_menus()
    }

    /// The id of an attached menu row whose shortcut counts as pressed in
    /// this poll cycle, or `None` when no row's shortcut does.  Only
    /// top-level rows are examined.
    pub fn is_menu_pressed(&mut self) -> (r: Option<usize>)
        requires
            old(self).wf(),
        ensures
            final(self).wf(),
            *final(self) == *old(self),
            r is None ==> forall|i: int, j: int|
                0 <= i < final(self)@.menus.len() && 0 <= j < spec_items_info(
                    (#[trigger] final(self)@.menus[i]).items@,
                ).len() ==> !spec_shortcut_pressed(
                    final(self)@.keys,
                    #[trigger] spec_items_info(final(self)@.menus[i].items@)[j],
                ),
            r matches Some(id) ==> exists|i: int, j: int|
                0 <= i < final(self)@.menus.len() && 0 <= j < spec_items_info(
                    (#[trigger] final(self)@.menus[i]).items@,
                ).len() && spec_shortcut_pressed(
                    final(self)@.keys,
                    #[trigger] spec_items_info(final(self)@.menus[i].items@)[j],
                ) && spec_items_info(final(self)@.menus[i].items@)[j].id == id as int,
    {
        let n = self.menus.len();
        let mut i: usize = 0;
        while i < n
            invariant
                self.wf(),
                n == self.menus@.len(),
                i <= n,
                forall|i0: int, j0: int|
                    0 <= i0 < i && 0 <= j0 < spec_items_info(
                        (#[trigger] self.menus@[i0]).items@,
                    ).len() ==> !spec_shortcut_pressed(
                        self@.keys,
                        #[trigger] spec_items_info(self.menus@[i0].items@)[j0],
                    ),
            decreases n - i,
        {
            let items_len = self.menus[i].items.len();
            let mut j: usize = 0;
            while j < items_len
                invariant
                    self.wf(),
                    i < n,
                    n == self.menus@.len(),
                    items_len == self.menus@[i as int].items@.len(),
                    j <= items_len,
                    forall|j0: int|
                        0 <= j0 < j ==> !spec_shortcut_pressed(
                            self@.keys,
                            #[trigger] spec_items_info(self.menus@[i as int].items@)[j0],
                        ),
                decreases items_len - j,
            {
                let enabled = self.menus[i].items[j].enabled;
                let id = self.menus[i].items[j].id;
                let key = self.menus[i].items[j].key;
                let mods = self.menus[i].items[j].modifiers;
                let is_shortcut = match key {
                    Key::Unknown => false,
                    _ => true,
                };
                if is_shortcut && enabled && id != MENU_ID_SEPARATOR {
                    let edge = self.keys.is_key_edge_pressed(key);
                    if edge && self.mods_down(mods) {
                        proof {
                            let ii = i as int;
                            let jj = j as int;
                            assert(0 <= ii < self@.menus.len() && 0 <= jj < spec_items_info(
                                self@.menus[ii].items@,
                            ).len() && spec_shortcut_pressed(
                                self@.keys,
                                spec_items_info(self@.menus[ii].items@)[jj],
                            ) && spec_items_info(self@.menus[ii].items@)[jj].id == id as int);
                        }
                        return Some(id);
                    }
                }
                j = j + 1;
            }
            i = i + 1;
        }
        None
    }

    /// Whether each modifier the set requires has its left or right key
    /// down.
    fn mods_down(&self, mods: Modifiers) -> (r: bool)
        requires
            self.wf(),
        ensures
            r == spec_mods_satisfied(self@.keys, mods),
    {
        (!mods.shift() || self.keys.is_key_down(Key::LeftShift) || self.keys.is_key_down(
            Key::RightShift,
        )) && (!mods.ctrl() || self.keys.is_key_down(Key::LeftCtrl) || self.keys.is_key_down(
            Key::RightCtrl,
        )) && (!mods.alt() || self.keys.is_key_down(Key::LeftAlt) || self.keys.is_key_down(
            Key::RightAlt,
        )) && (!mods.logo() || self.keys.is_key_down(Key::LeftSuper) || self.keys.is_key_down(
            Key::RightSuper,
        ))
    }

    /// Feeds one raw key event at time `now`, as the platform adapter
    /// delivers it, and forwards it to the input callback, if one is
    /// installed.
    pub fn on_raw_key_event(&mut self, key: Key, pressed: bool, now: u64)
        requires
            old(self).wf(),
        ensures
            final(self).wf(),
            final(self)@.keys.spec_state(key) == spec_on_key_event(
                old(self)@.keys.spec_state(key),
                pressed,
                now,
            ),
            forall|k: Key|
                k != key ==> #[trigger] final(self)@.keys.spec_state(k) == old(self)@.keys.spec_state(k),
            final(self)@.keys.spec_delay() == old(self)@.keys.spec_delay(),
            final(self)@.keys.spec_rate() == old(self)@.keys.spec_rate(),
            final(self)@ == (WindowView { keys: final(self)@.keys, ..old(self)@ }),
    {
        self.keys.on_raw_key_event(key, pressed, now);
        match &mut self.callback {
            None => {},
            Some(cb) => {
                cb.set_key_state(key, pressed);
            },
        }
    }

    /// Feeds one unicode scalar value of text input to the input callback,
    /// if one is installed.  The tracked state does not change.
    pub fn on_raw_char(&mut self, uni_char: u32)
        ensures
            final(self)@ == old(self)@,
    {
        match &mut self.callback {
            None => {},
            Some(cb) => {
                cb.add_char(uni_char);
            },
        }
    }

    /// Feeds a raw pointer move in window coordinates.
    pub fn on_raw_mouse_motion(&mut self, x: i32, y: i32)
        ensures
            final(self)@.mouse.spec_x() == x as int,
            final(self)@.mouse.spec_y() == y as int,
            forall|b: MouseButton|
                final(self)@.mouse.spec_down(b) == old(self)@.mouse.spec_down(b),
            final(self)@.mouse.spec_scroll_x() == old(self)@.mouse.spec_scroll_x(),
            final(self)@.mouse.spec_scroll_y() == old(self)@.mouse.spec_scroll_y(),
            final(self)@ == (WindowView { mouse: final(self)@.mouse, ..old(self)@ }),
    {
        self.mouse.on_raw_mouse_motion(x, y);
    }

    /// Feeds a raw press or release of a mouse button.
    pub fn on_raw_mouse_button(&mut self, button: MouseButton, pressed: bool)
        ensures
            final(self)@.mouse.spec_down(button) == pressed,
            forall|b: MouseButton|
                b != button ==> final(self)@.mouse.spec_down(b) == old(self)@.mouse.spec_down(b),
            final(self)@.mouse.spec_x() == old(self)@.mouse.spec_x(),
            final(self)@.mouse.spec_y() == old(self)@.mouse.spec_y(),
            final(self)@.mouse.spec_scroll_x() == old(self)@.mouse.spec_scroll_x(),
            final(self)@.mouse.spec_scroll_y() == old(self)@.mouse.spec_scroll_y(),
            final(self)@ == (WindowView { mouse: final(self)@.mouse, ..old(self)@ }),
    {
        self.mouse.on_raw_mouse_button(button, pressed);
    }

    /// Feeds a raw scroll step; deltas add up until the host reads them,
    /// sums beyond the `i32` range are held at its nearer end.
    pub fn on_raw_scroll(&mut self, dx: i32, dy: i32)
        ensures
            final(self)@.mouse.spec_scroll_x() == spec_sat_add_i32(
                old(self)@.mouse.spec_scroll_x(),
                dx as int,
            ),
            final(self)@.mouse.spec_scroll_y() == spec_sat_add_i32(
                old(self)@.mouse.spec_scroll_y(),
                dy as int,
            ),
            final(self)@.mouse.spec_x() == old(self)@.mouse.spec_x(),
            final(self)@.mouse.spec_y() == old(self)@.mouse.spec_y(),
            forall|b: MouseButton|
                final(self)@.mouse.spec_down(b) == old(self)@.mouse.spec_down(b),
            final(self)@ == (WindowView { mouse: final(self)@.mouse, ..old(self)@ }),
    {
        self.mouse.on_raw_scroll(dx, dy);
    }

    /// Feeds a window resize from the platform.  Each dimension is forced
    /// into `1..=`[`MAX_WINDOW_DIMENSION`]; the buffer size is untouched.
    pub fn on_raw_resize(&mut self, width: usize, height: usize)
        requires
            old(self).wf(),
        ensures
            final(self).wf(),
            final(self)@.ctx == (ScaleContext {
                window_w: spec_clamp(1, width as int, MAX_WINDOW_DIMENSION as int) as usize,
                window_h: spec_clamp(1, height as int, MAX_WINDOW_DIMENSION as int) as usize,
                ..old(self)@.ctx
            }),
            final(self)@ == (WindowView { ctx: final(self)@.ctx, ..old(self)@ }),
    {
        self.ctx.window_w = crate::geometry::clamp(1, width, MAX_WINDOW_DIMENSION);
        self.ctx.window_h = crate::geometry::clamp(1, height, MAX_WINDOW_DIMENSION);
    }

    /// Feeds a focus change.  Losing focus releases every held key — the
    /// platform stops delivering their up events — so a key held across a
    /// focus loss takes a fresh down edge, and a fresh repeat timer, when
    /// pressed again.
    pub fn on_raw_focus(&mut self, active: bool)
        requires
            old(self).wf(),
        ensures
            final(self).wf(),
            final(self)@.active == active,
            active ==> final(self)@.keys == old(self)@.keys,
            !active ==> forall|k: Key|
                #[trigger] final(self)@.keys.spec_state(k) == spec_release_key(
                    old(self)@.keys.spec_state(k),
                ),
            final(self)@.keys.spec_delay() == old(self)@.keys.spec_delay(),
            final(self)@.keys.spec_rate() == old(self)@.keys.spec_rate(),
            final(self)@ == (WindowView {
                active: active,
                keys: final(self)@.keys,
                ..old(self)@
            }),
    {
        self.active = active;
        if !active {
            self.keys.release_all_keys();
        }
    }

    /// Feeds the platform's notice that the user closed the window; every
    /// later `update` becomes a no-op.
    pub fn on_raw_close(&mut self)
        ensures
            final(self)@ == (WindowView { open: false, ..old(self)@ }),
    {
        self.open = false;
    }
}

} // verus!
