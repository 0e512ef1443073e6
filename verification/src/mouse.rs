//! The mouse-state tracker: position, button state and accumulated scroll.

use vstd::prelude::*;

use crate::geometry::spec_clamp;

verus! {

/// The mouse buttons a window reports.
#[derive(Clone, Copy, Debug, PartialEq, Eq, Structural)]
pub enum MouseButton {
    /// The left button.
    Left,
    /// The middle button.
    Middle,
    /// The right button.
    Right,
}

/// What to do with a pointer coordinate that may lie outside the area it is
/// measured against.
#[derive(Clone, Copy, Debug, PartialEq, Eq, Structural)]
pub enum MouseMode {
    /// Return the coordinate unchanged, even outside the bounds.
    Pass,
    /// Force each axis into the bounds.
    Clamp,
    /// Return nothing when either axis lies outside the bounds.
    Discard,
}

/// `a + b` held within the `i32` range.
pub open spec fn spec_sat_add_i32(a: int, b: int) -> int {
    if a + b > i32::MAX {
        i32::MAX as int
    } else if a + b < i32::MIN {
        i32::MIN as int
    } else {
        a + b
    }
}

/// `a + b`, with each overflowing sum held at the nearer end of the `i32`
/// range.
fn sat_add_i32(a: i32, b: i32) -> (r: i32)
    ensures
        r as int == spec_sat_add_i32(a as int, b as int),
{
    let s: i64 = (a as i64) + (b as i64);
    if s > (i32::MAX as i64) {
        i32::MAX
    } else if s < (i32::MIN as i64) {
        i32::MIN
    } else {
        s as i32
    }
}

/// Applies a [`MouseMode`] to the coordinate `(x, y)` against the bounds
/// `[0, w)` by `[0, h)`.
///
/// `Pass` hands the coordinate through unchanged, `Clamp` forces each axis
/// into the bounds, and `Discard` returns `None` for any coordinate outside
/// them.
pub open spec fn spec_apply_mouse_mode(x: int, y: int, w: int, h: int, mode: MouseMode) -> Option<
    (int, int),
> {
    match mode {
        MouseMode::Pass => Some((x, y)),
        MouseMode::Clamp => Some((spec_clamp(0, x, w - 1), spec_clamp(0, y, h - 1))),
        MouseMode::Discard => if 0 <= x < w && 0 <= y < h {
            Some((x, y))
        } else {
            None
        },
    }
}

/// Applies a [`MouseMode`] to the coordinate `(x, y)` against the bounds
/// `[0, w)` by `[0, h)`.
pub fn apply_mouse_mode(x: i64, y: i64, w: usize, h: usize, mode: MouseMode) -> (r: Option<
    (i64, i64),
>)
    requires
        1 <= w <= i64::MAX,
        1 <= h <= i64::MAX,
    ensures
        match r {
            Some(p) => spec_apply_mouse_mode(x as int, y as int, w as int, h as int, mode)
                == Some((p.0 as int, p.1 as int)),
            None => spec_apply_mouse_mode(x as int, y as int, w as int, h as int, mode)
                is None,
        },
{
    match mode {
        MouseMode::Pass => Some((x, y)),
        MouseMode::Clamp => {
            let cx: i64 = if x < 0 {
                0
            } else if x > (w as i64) - 1 {
                (w as i64) - 1
            } else {
                x
            };
            let cy: i64 = if y < 0 {
                0
            } else if y > (h as i64) - 1 {
                (h as i64) - 1
            } else {
                y
            };
            Some((cx, cy))
        },
        MouseMode::Discard => {
            if 0 <= x && x < (w as i64) && 0 <= y && y < (h as i64) {
                Some((x, y))
            } else {
                None
            }
        },
    }
}

/// Outside the bounds, the three modes behave as their names promise: `Pass`
/// is the identity, `Clamp` lands inside the bounds, and `Discard` returns
/// nothing.
pub proof fn lemma_mouse_mode_outside(x: int, y: int, w: int, h: int)
    requires
        1 <= w,
        1 <= h,
        !(0 <= x < w && 0 <= y < h),
    ensures
        spec_apply_mouse_mode(x, y, w, h, MouseMode::Pass) == Some((x, y)),
        spec_apply_mouse_mode(x, y, w, h, MouseMode::Discard) is None,
        ({
            let c = spec_apply_mouse_mode(x, y, w, h, MouseMode::Clamp);
            &&& c matches Some(p)
            &&& 0 <= p.0 < w
            &&& 0 <= p.1 < h
        }),
{
}

/// The mouse state a window tracks between two polls: the last position the
/// platform reported, which buttons are down, and the scroll delta
/// accumulated since the host last read it.
#[derive(Clone, Copy, Debug)]
pub struct MouseHandler {
    x: i32,
    y: i32,
    left_down: bool,
    middle_down: bool,
    right_down: bool,
    scroll_x: i32,
    scroll_y: i32,
}

impl MouseHandler {
    /// The last reported pointer x coordinate, in window space.
    pub closed spec fn spec_x(self) -> int {
        self.x as int
    }

    /// The last reported pointer y coordinate, in window space.
    pub closed spec fn spec_y(self) -> int {
        self.y as int
    }

    /// Whether `button` is currently held down.
    pub closed spec fn spec_down(self, button: MouseButton) -> bool {
        match button {
            MouseButton::Left => self.left_down,
            MouseButton::Middle => self.middle_down,
            MouseButton::Right => self.right_down,
        }
    }

    /// The scroll delta accumulated since the last read, x axis.
    pub closed spec fn spec_scroll_x(self) -> int {
        self.scroll_x as int
    }

    /// The scroll delta accumulated since the last read, y axis.
    pub closed spec fn spec_scroll_y(self) -> int {
        self.scroll_y as int
    }

    /// A tracker with the pointer at the origin, no button down and nothing
    /// scrolled.
    pub fn new() -> (r: MouseHandler)
        ensures
            r.spec_x() == 0,
            r.spec_y() == 0,
            forall|b: MouseButton| !r.spec_down(b),
            r.spec_scroll_x() == 0,
            r.spec_scroll_y() == 0,
    {
        MouseHandler {
            x: 0,
            y: 0,
            left_down: false,
            middle_down: false,
            right_down: false,
            scroll_x: 0,
            scroll_y: 0,
        }
    }

    /// Records a pointer move to `(x, y)` in window space.
    pub fn on_raw_mouse_motion(&mut self, x: i32, y: i32)
        ensures
            final(self).spec_x() == x as int,
            final(self).spec_y() == y as int,
            forall|b: MouseButton| final(self).spec_down(b) == old(self).spec_down(b),
            final(self).spec_scroll_x() == old(self).spec_scroll_x(),
            final(self).spec_scroll_y() == old(self).spec_scroll_y(),
    {
        self.x = x;
        self.y = y;
    }

    /// Records a press (`pressed` true) or release (`pressed` false) of
    /// `button`.
    pub fn on_raw_mouse_button(&mut self, button: MouseButton, pressed: bool)
        ensures
            final(self).spec_down(button) == pressed,
            forall|b: MouseButton|
                b != button ==> final(self).spec_down(b) == old(self).spec_down(b),
            final(self).spec_x() == old(self).spec_x(),
            final(self).spec_y() == old(self).spec_y(),
            final(self).spec_scroll_x() == old(self).spec_scroll_x(),
            final(self).spec_scroll_y() == old(self).spec_scroll_y(),
    {
        match button {
            MouseButton::Left => self.left_down = pressed,
            MouseButton::Middle => self.middle_down = pressed,
            MouseButton::Right => self.right_down = pressed,
        }
    }

    /// Accumulates a scroll step onto the pending delta.  The delta adds up
    /// across events until the host reads it; a sum beyond the `i32` range is
    /// held at the range's nearer end.
    pub fn on_raw_scroll(&mut self, dx: i32, dy: i32)
        ensures
            final(self).spec_scroll_x() == spec_sat_add_i32(old(self).spec_scroll_x(), dx as int),
            final(self).spec_scroll_y() == spec_sat_add_i32(old(self).spec_scroll_y(), dy as int),
            final(self).spec_x() == old(self).spec_x(),
            final(self).spec_y() == old(self).spec_y(),
            forall|b: MouseButton| final(self).spec_down(b) == old(self).spec_down(b),
    {
        self.scroll_x = sat_add_i32(self.scroll_x, dx);
        self.scroll_y = sat_add_i32(self.scroll_y, dy);
    }

    /// Whether `button` is currently held down.
    pub fn get_mouse_down(&self, button: MouseButton) -> (r: bool)
        ensures
            r == self.spec_down(button),
    {
        match button {
            MouseButton::Left => self.left_down,
            MouseButton::Middle => self.middle_down,
            MouseButton::Right => self.right_down,
        }
    }

    /// Hands out the scroll delta accumulated since the previous read and
    /// consumes it.
    ///
    /// When nothing was scrolled since the previous read the result is `None`
    /// and the state stays untouched, so a second read without an intervening
    /// scroll event always yields `None`.
    pub fn get_scroll_wheel(&mut self) -> (r: Option<(i32, i32)>)
        ensures
            old(self).spec_scroll_x() == 0 && old(self).spec_scroll_y() == 0 ==> r is None
                && *final(self) == *old(self),
            !(old(self).spec_scroll_x() == 0 && old(self).spec_scroll_y() == 0) ==> {
                &&& r matches Some(d)
                &&& d.0 as int == old(self).spec_scroll_x()
                &&& d.1 as int == old(self).spec_scroll_y()
                &&& final(self).spec_scroll_x() == 0
                &&& final(self).spec_scroll_y() == 0
            },
            final(self).spec_x() == old(self).spec_x(),
            final(self).spec_y() == old(self).spec_y(),
            forall|b: MouseButton| final(self).spec_down(b) == old(self).spec_down(b),
    {
        if self.scroll_x == 0 && self.scroll_y == 0 {
            None
        } else {
            let d = (self.scroll_x, self.scroll_y);
            self.scroll_x = 0;
            self.scroll_y = 0;
            Some(d)
        }
    }

    /// The pointer position with `mode` applied against the window bounds
    /// `w` by `h`, skipping any scale transform.
    pub fn unscaled_pos(&self, mode: MouseMode, w: usize, h: usize) -> (r: Option<(i64, i64)>)
        requires
            1 <= w <= i64::MAX,
            1 <= h <= i64::MAX,
        ensures
            match r {
                Some(p) => spec_apply_mouse_mode(self.spec_x(), self.spec_y(), w as int, h as int, mode)
                    == Some((p.0 as int, p.1 as int)),
                None => spec_apply_mouse_mode(self.spec_x(), self.spec_y(), w as int, h as int, mode)
                    is None,
            },
    {
        apply_mouse_mode(self.x as i64, self.y as i64, w, h, mode)
    }

    /// The raw pointer position in window space, before any mode or scale is
    /// applied.
    pub fn raw_pos(&self) -> (r: (i32, i32))
        ensures
            r.0 as int == self.spec_x(),
            r.1 as int == self.spec_y(),
    {
        (self.x, self.y)
    }
}

} // verus!
