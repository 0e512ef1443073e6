//! A windowing-core library: the input-state and presentation-timing engine
//! behind a pixel-buffer window.
//!
//! The library models the pollable state a host sees between two `update`
//! calls: which keys are down, pressed or released (with delay-then-rate key
//! repeat), where the mouse is under a scaling policy, how much was scrolled,
//! how long the host must wait before pumping the OS queue again, and the
//! in-process menu tree used on systems without native menus.
//!
//! Platform adapters deliver raw events through the `on_raw_*` methods and
//! perform the actual waiting and blitting; every rule that decides what those
//! events mean is specified and verified here.

mod error;
mod geometry;
mod key;
mod key_handler;
mod menu;
mod modifiers;
mod mouse;
mod rate;
mod window;

pub use error::Error;
pub use geometry::clamp;
pub use geometry::map_window_to_buffer;
pub use geometry::scale_multiple;
pub use geometry::window_size_for;
pub use geometry::Scale;
pub use geometry::ScaleContext;
pub use geometry::ScaleMode;
pub use geometry::MAX_DIMENSION;
pub use geometry::MAX_WINDOW_DIMENSION;
pub use key::key_at;
pub use key::key_index;
pub use key::Key;
pub use key::KEY_COUNT;
pub use key_handler::KeyHandler;
pub use key_handler::KeyRepeat;
pub use key_handler::KeyState;
pub use key_handler::DEFAULT_KEY_REPEAT_DELAY;
pub use key_handler::DEFAULT_KEY_REPEAT_RATE;
pub use key_handler::MAX_REPEAT_SETTING;
pub use menu::Menu;
pub use menu::MenuHandle;
pub use menu::MenuItem;
pub use menu::MenuItemHandle;
pub use menu::PosixMenu;
pub use menu::PosixMenuItem;
pub use menu::MENU_ID_SEPARATOR;
pub use modifiers::Modifiers;
pub use mouse::apply_mouse_mode;
pub use mouse::MouseButton;
pub use mouse::MouseHandler;
pub use mouse::MouseMode;
pub use rate::RateLimiter;
pub use window::CursorStyle;
pub use window::Icon;
pub use window::InputCallback;
pub use window::Window;
pub use window::WindowOptions;
pub use window::WindowView;
pub use rate::DEFAULT_UPDATE_INTERVAL;
