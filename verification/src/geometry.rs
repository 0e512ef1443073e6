//! The pixel-scale and scale-mode transforms between buffer space and window
//! space.

use vstd::prelude::*;

verus! {

use vstd::arithmetic::div_mod::lemma_div_multiples_vanish;
use vstd::arithmetic::div_mod::lemma_multiply_divide_lt;

/// The widest and tallest pixel buffer the library accepts.
pub const MAX_DIMENSION: usize = 0x0100_0000;

/// The widest and tallest window the library accepts: a maximal buffer at the
/// largest fixed scale.
pub const MAX_WINDOW_DIMENSION: usize = 0x2000_0000;

/// The pixel scale of the framebuffer: how many window pixels one buffer
/// pixel spans on each axis when the window is first sized.
#[derive(Clone, Copy, Debug, PartialEq, Eq, Structural)]
pub enum Scale {
    /// Picks the largest fixed scale whose scaled buffer still fits the
    /// screen the adapter reports.
    FitScreen,
    /// No scaling.
    X1,
    /// Two window pixels per buffer pixel on each axis.
    X2,
    /// Four window pixels per buffer pixel on each axis.
    X4,
    /// Eight window pixels per buffer pixel on each axis.
    X8,
    /// Sixteen window pixels per buffer pixel on each axis.
    X16,
    /// Thirty-two window pixels per buffer pixel on each axis.
    X32,
}

/// How the buffer is laid into the window once their sizes disagree, for
/// example after a resize.
#[derive(Clone, Copy, Debug, PartialEq, Eq, Structural)]
pub enum ScaleMode {
    /// Stretches each axis independently until the buffer fills the window.
    Stretch,
    /// Scales both axes uniformly as far as the window allows and centers the
    /// result, leaving letterbox margins on the looser axis.
    AspectRatioStretch,
    /// No scaling; the buffer sits at the window's midpoint.
    Center,
    /// No scaling; the buffer sits at the window's upper-left corner.
    UpperLeft,
}

/// The largest of the fixed scale multiples (1, 2, 4, 8, 16 or 32) at which
/// the buffer still fits the screen; 1 when not even that fits.
pub open spec fn spec_fit_multiple(buffer_w: int, buffer_h: int, screen_w: int, screen_h: int) -> int {
    if buffer_w * 32 <= screen_w && buffer_h * 32 <= screen_h {
        32
    } else if buffer_w * 16 <= screen_w && buffer_h * 16 <= screen_h {
        16
    } else if buffer_w * 8 <= screen_w && buffer_h * 8 <= screen_h {
        8
    } else if buffer_w * 4 <= screen_w && buffer_h * 4 <= screen_h {
        4
    } else if buffer_w * 2 <= screen_w && buffer_h * 2 <= screen_h {
        2
    } else {
        1
    }
}

/// The scale multiple a [`Scale`] stands for, measuring `FitScreen` against
/// the screen size the adapter reported.
pub open spec fn spec_scale_multiple(
    scale: Scale,
    buffer_w: int,
    buffer_h: int,
    screen_w: int,
    screen_h: int,
) -> int {
    match scale {
        Scale::FitScreen => spec_fit_multiple(buffer_w, buffer_h, screen_w, screen_h),
        Scale::X1 => 1,
        Scale::X2 => 2,
        Scale::X4 => 4,
        Scale::X8 => 8,
        Scale::X16 => 16,
        Scale::X32 => 32,
    }
}

/// The scale multiple a [`Scale`] stands for against the given screen size.
pub fn scale_multiple(
    scale: Scale,
    buffer_w: usize,
    buffer_h: usize,
    screen_w: usize,
    screen_h: usize,
) -> (r: usize)
    requires
        1 <= buffer_w <= MAX_DIMENSION,
        1 <= buffer_h <= MAX_DIMENSION,
    ensures
        r as int == spec_scale_multiple(scale, buffer_w as int, buffer_h as int, screen_w as int, screen_h as int),
        1 <= r <= 32,
{
    match scale {
        Scale::FitScreen => {
            if buffer_w * 32 <= screen_w && buffer_h * 32 <= screen_h {
                32
            } else if buffer_w * 16 <= screen_w && buffer_h * 16 <= screen_h {
                16
            } else if buffer_w * 8 <= screen_w && buffer_h * 8 <= screen_h {
                8
            } else if buffer_w * 4 <= screen_w && buffer_h * 4 <= screen_h {
                4
            } else if buffer_w * 2 <= screen_w && buffer_h * 2 <= screen_h {
                2
            } else {
                1
            }
        },
        Scale::X1 => 1,
        Scale::X2 => 2,
        Scale::X4 => 4,
        Scale::X8 => 8,
        Scale::X16 => 16,
        Scale::X32 => 32,
    }
}

/// The window size that displays a `buffer_w` by `buffer_h` buffer at
/// `scale`, measuring `FitScreen` against the given screen size.
pub fn window_size_for(
    scale: Scale,
    buffer_w: usize,
    buffer_h: usize,
    screen_w: usize,
    screen_h: usize,
) -> (r: (usize, usize))
    requires
        1 <= buffer_w <= MAX_DIMENSION,
        1 <= buffer_h <= MAX_DIMENSION,
    ensures
        ({
            let m = spec_scale_multiple(scale, buffer_w as int, buffer_h as int, screen_w as int, screen_h as int);
            r.0 == buffer_w * m && r.1 == buffer_h * m
        }),
        1 <= r.0 <= MAX_WINDOW_DIMENSION,
        1 <= r.1 <= MAX_WINDOW_DIMENSION,
{
    let m = scale_multiple(scale, buffer_w, buffer_h, screen_w, screen_h);
    (buffer_w * m, buffer_h * m)
}

/// `value` forced into `[low, high]`.
pub open spec fn spec_clamp(low: int, value: int, high: int) -> int {
    if value < low {
        low
    } else if value > high {
        high
    } else {
        value
    }
}

/// Returns `value` unless it lies outside `[low, high]`, in which case the
/// nearer bound is returned.
pub fn clamp(low: usize, value: usize, high: usize) -> (r: usize)
    requires
        low <= high,
    ensures
        r as int == spec_clamp(low as int, value as int, high as int),
{
    if value < low {
        low
    } else if value > high {
        high
    } else {
        value
    }
}

/// The geometry a window currently presents its buffer with: the requested
/// scale and scale mode, the buffer size, and the actual window size.
#[derive(Clone, Copy, Debug)]
pub struct ScaleContext {
    /// The pixel scale the window was created with.
    pub scale: Scale,
    /// How the buffer is laid into the window.
    pub scale_mode: ScaleMode,
    /// Width of the pixel buffer.
    pub buffer_w: usize,
    /// Height of the pixel buffer.
    pub buffer_h: usize,
    /// Width of the window.
    pub window_w: usize,
    /// Height of the window.
    pub window_h: usize,
}

impl ScaleContext {
    /// All four sizes are positive and within the library's limits.
    pub open spec fn wf(self) -> bool {
        &&& 1 <= self.buffer_w <= MAX_DIMENSION
        &&& 1 <= self.buffer_h <= MAX_DIMENSION
        &&& 1 <= self.window_w <= MAX_WINDOW_DIMENSION
        &&& 1 <= self.window_h <= MAX_WINDOW_DIMENSION
    }
}

/// One axis of the `Stretch` inverse: window coordinate `p` against window
/// extent `w` and buffer extent `b`.  Points left of or above the window map
/// to the out-of-bounds value -1.
pub open spec fn spec_map_stretch_axis(p: int, w: int, b: int) -> int {
    if p < 0 {
        -1
    } else {
        p * b / w
    }
}

/// Where the buffer's leading edge sits on an axis under `Center`: half the
/// slack between window extent `w` and buffer extent `b`, negative when the
/// window is the smaller of the two.
pub open spec fn spec_center_offset(w: int, b: int) -> int {
    if w >= b {
        (w - b) / 2
    } else {
        -((b - w) / 2)
    }
}

/// The numerator of the uniform `AspectRatioStretch` scale: the window extent
/// of whichever axis binds first.
pub open spec fn spec_aspect_num(ctx: ScaleContext) -> int {
    if ctx.window_w * ctx.buffer_h <= ctx.window_h * ctx.buffer_w {
        ctx.window_w as int
    } else {
        ctx.window_h as int
    }
}

/// The denominator of the uniform `AspectRatioStretch` scale: the buffer
/// extent of whichever axis binds first.
pub open spec fn spec_aspect_den(ctx: ScaleContext) -> int {
    if ctx.window_w * ctx.buffer_h <= ctx.window_h * ctx.buffer_w {
        ctx.buffer_w as int
    } else {
        ctx.buffer_h as int
    }
}

/// How many window pixels the buffer spans horizontally under
/// `AspectRatioStretch`.
pub open spec fn spec_aspect_span_w(ctx: ScaleContext) -> int {
    ctx.buffer_w * spec_aspect_num(ctx) / spec_aspect_den(ctx)
}

/// How many window pixels the buffer spans vertically under
/// `AspectRatioStretch`.
pub open spec fn spec_aspect_span_h(ctx: ScaleContext) -> int {
    ctx.buffer_h * spec_aspect_num(ctx) / spec_aspect_den(ctx)
}

/// One axis of the `AspectRatioStretch` inverse: window coordinate `p`
/// against the buffer's offset `off` and span `span` on that axis, the
/// uniform scale `num / den`, and the buffer extent `b`.  The letterbox
/// margins map out of bounds: -1 before the buffer, `b` past it.
pub open spec fn spec_aspect_axis(p: int, off: int, span: int, num: int, den: int, b: int) -> int {
    if p < off {
        -1
    } else if p - off >= span {
        b
    } else {
        (p - off) * den / num
    }
}

/// The inverse scale-mode transform: which buffer coordinate the window
/// coordinate `(px, py)` points at.  Out-of-buffer window points yield
/// out-of-bounds buffer coordinates; no mode hides them here.
pub open spec fn spec_map_window_to_buffer(ctx: ScaleContext, px: int, py: int) -> (int, int) {
    match ctx.scale_mode {
        ScaleMode::Stretch => (
            spec_map_stretch_axis(px, ctx.window_w as int, ctx.buffer_w as int),
            spec_map_stretch_axis(py, ctx.window_h as int, ctx.buffer_h as int),
        ),
        ScaleMode::AspectRatioStretch => {
            let num = spec_aspect_num(ctx);
            let den = spec_aspect_den(ctx);
            let span_w = spec_aspect_span_w(ctx);
            let span_h = spec_aspect_span_h(ctx);
            let off_x = (ctx.window_w - span_w) / 2;
            let off_y = (ctx.window_h - span_h) / 2;
            (
                spec_aspect_axis(px, off_x, span_w, num, den, ctx.buffer_w as int),
                spec_aspect_axis(py, off_y, span_h, num, den, ctx.buffer_h as int),
            )
        },
        ScaleMode::Center => (
            px - spec_center_offset(ctx.window_w as int, ctx.buffer_w as int),
            py - spec_center_offset(ctx.window_h as int, ctx.buffer_h as int),
        ),
        ScaleMode::UpperLeft => (px, py),
    }
}

/// The buffer span on an axis never exceeds the window span on that axis.
proof fn lemma_aspect_span_fits(ctx: ScaleContext)
    requires
        ctx.wf(),
    ensures
        0 <= spec_aspect_span_w(ctx) <= ctx.window_w,
        0 <= spec_aspect_span_h(ctx) <= ctx.window_h,
        1 <= spec_aspect_num(ctx),
        1 <= spec_aspect_den(ctx),
{
    let num = spec_aspect_num(ctx);
    let den = spec_aspect_den(ctx);
    if ctx.window_w * ctx.buffer_h <= ctx.window_h * ctx.buffer_w {
        lemma_div_multiples_vanish(ctx.window_w as int, ctx.buffer_w as int);
        assert(ctx.buffer_w * num == ctx.buffer_w * ctx.window_w);
        assert(spec_aspect_span_w(ctx) == ctx.window_w as int);
        assert(ctx.buffer_h * ctx.window_w <= ctx.window_h * ctx.buffer_w) by (nonlinear_arith)
            requires
                ctx.window_w * ctx.buffer_h <= ctx.window_h * ctx.buffer_w,
        ;
        if ctx.buffer_h * num < den * (ctx.window_h as int) {
            lemma_multiply_divide_lt(ctx.buffer_h * num, den, ctx.window_h as int);
            assert(spec_aspect_span_h(ctx) < ctx.window_h);
        } else {
            assert(ctx.buffer_h * ctx.window_w == ctx.window_h * ctx.buffer_w);
            lemma_div_multiples_vanish(ctx.window_h as int, ctx.buffer_w as int);
            assert(spec_aspect_span_h(ctx) == ctx.window_h as int);
        }
        assert(spec_aspect_span_h(ctx) >= 0) by {
            vstd::arithmetic::div_mod::lemma_div_pos_is_pos(ctx.buffer_h * num, den);
            assert(ctx.buffer_h * num >= 0) by (nonlinear_arith)
                requires
                    ctx.buffer_h >= 1,
                    num >= 1,
            ;
        }
        assert(spec_aspect_span_w(ctx) >= 0);
    } else {
        lemma_div_multiples_vanish(ctx.window_h as int, ctx.buffer_h as int);
        assert(ctx.buffer_h * num == ctx.buffer_h * ctx.window_h);
        assert(spec_aspect_span_h(ctx) == ctx.window_h as int);
        assert(ctx.buffer_w * num < den * (ctx.window_w as int)) by (nonlinear_arith)
            requires
                ctx.window_h * ctx.buffer_w < ctx.window_w * ctx.buffer_h,
                num == ctx.window_h as int,
                den == ctx.buffer_h as int,
        ;
        lemma_multiply_divide_lt(ctx.buffer_w * num, den, ctx.window_w as int);
        assert(spec_aspect_span_w(ctx) < ctx.window_w);
        assert(spec_aspect_span_w(ctx) >= 0) by {
            vstd::arithmetic::div_mod::lemma_div_pos_is_pos(ctx.buffer_w * num, den);
            assert(ctx.buffer_w * num >= 0) by (nonlinear_arith)
                requires
                    ctx.buffer_w >= 1,
                    num >= 1,
            ;
        }
        assert(spec_aspect_span_h(ctx) >= 0);
    }
}

/// The inverse scale-mode transform as an executable function.
pub fn map_window_to_buffer(ctx: &ScaleContext, px: i32, py: i32) -> (r: (i64, i64))
    requires
        ctx.wf(),
    ensures
        (r.0 as int, r.1 as int) == spec_map_window_to_buffer(*ctx, px as int, py as int),
{
    match ctx.scale_mode {
        ScaleMode::Stretch => (
            map_stretch_axis(px, ctx.window_w, ctx.buffer_w),
            map_stretch_axis(py, ctx.window_h, ctx.buffer_h),
        ),
        ScaleMode::AspectRatioStretch => {
            proof {
                lemma_aspect_span_fits(*ctx);
                assert(0 <= ctx.window_w * ctx.buffer_h <= 0x2000_0000 * 0x0100_0000)
                    by (nonlinear_arith)
                    requires
                        0 <= ctx.window_w <= 0x2000_0000,
                        0 <= ctx.buffer_h <= 0x0100_0000,
                ;
                assert(0 <= ctx.window_h * ctx.buffer_w <= 0x2000_0000 * 0x0100_0000)
                    by (nonlinear_arith)
                    requires
                        0 <= ctx.window_h <= 0x2000_0000,
                        0 <= ctx.buffer_w <= 0x0100_0000,
                ;
            }
            let wb: u64 = (ctx.window_w as u64) * (ctx.buffer_h as u64);
            let hb: u64 = (ctx.window_h as u64) * (ctx.buffer_w as u64);
            let (num, den): (u64, u64) = if wb <= hb {
                (ctx.window_w as u64, ctx.buffer_w as u64)
            } else {
                (ctx.window_h as u64, ctx.buffer_h as u64)
            };
            proof {
                assert(0 <= ctx.buffer_w * (num as int) <= 0x0100_0000 * 0x2000_0000)
                    by (nonlinear_arith)
                    requires
                        0 <= ctx.buffer_w <= 0x0100_0000,
                        0 <= (num as int) <= 0x2000_0000,
                ;
                assert(0 <= ctx.buffer_h * (num as int) <= 0x0100_0000 * 0x2000_0000)
                    by (nonlinear_arith)
                    requires
                        0 <= ctx.buffer_h <= 0x0100_0000,
                        0 <= (num as int) <= 0x2000_0000,
                ;
            }
            let span_w: u64 = (ctx.buffer_w as u64) * num / den;
            let span_h: u64 = (ctx.buffer_h as u64) * num / den;
            let off_x: u64 = ((ctx.window_w as u64) - span_w) / 2;
            let off_y: u64 = ((ctx.window_h as u64) - span_h) / 2;
            (
                map_aspect_axis(px, off_x, span_w, num, den, ctx.buffer_w),
                map_aspect_axis(py, off_y, span_h, num, den, ctx.buffer_h),
            )
        },
        ScaleMode::Center => (
            (px as i64) - center_offset(ctx.window_w, ctx.buffer_w),
            (py as i64) - center_offset(ctx.window_h, ctx.buffer_h),
        ),
        ScaleMode::UpperLeft => ((px as i64), (py as i64)),
    }
}

/// One axis of the `Stretch` inverse.
fn map_stretch_axis(p: i32, w: usize, b: usize) -> (r: i64)
    requires
        1 <= w,
        b <= MAX_DIMENSION,
    ensures
        r as int == spec_map_stretch_axis(p as int, w as int, b as int),
{
    if p < 0 {
        -1
    } else {
        proof {
            assert(0 <= (p as int) * (b as int) <= 0x8000_0000 * 0x0100_0000) by (nonlinear_arith)
                requires
                    0 <= (p as int) < 0x8000_0000,
                    0 <= (b as int) <= 0x0100_0000,
            ;
            vstd::arithmetic::div_mod::lemma_div_nonincreasing((p as int) * (b as int), w as int);
            vstd::arithmetic::div_mod::lemma_div_pos_is_pos((p as int) * (b as int), w as int);
        }
        let q: u64 = (p as u64) * (b as u64) / (w as u64);
        q as i64
    }
}

/// One axis of the `AspectRatioStretch` inverse.
fn map_aspect_axis(p: i32, off: u64, span: u64, num: u64, den: u64, b: usize) -> (r: i64)
    requires
        1 <= num <= MAX_WINDOW_DIMENSION,
        1 <= den <= MAX_DIMENSION,
        off <= MAX_WINDOW_DIMENSION,
        span <= MAX_WINDOW_DIMENSION,
        b <= MAX_DIMENSION,
    ensures
        r as int == spec_aspect_axis(p as int, off as int, span as int, num as int, den as int, b as int),
{
    if p < 0 || (p as u64) < off {
        -1
    } else {
        let q: u64 = (p as u64) - off;
        if q >= span {
            b as i64
        } else {
            proof {
                assert(0 <= (q as int) * (den as int) <= 0x2000_0000 * 0x0100_0000)
                    by (nonlinear_arith)
                    requires
                        0 <= (q as int) < 0x2000_0000,
                        0 <= (den as int) <= 0x0100_0000,
                ;
                vstd::arithmetic::div_mod::lemma_div_nonincreasing(
                    (q as int) * (den as int),
                    num as int,
                );
                vstd::arithmetic::div_mod::lemma_div_pos_is_pos(
                    (q as int) * (den as int),
                    num as int,
                );
            }
            let scaled: u64 = q * den / num;
            scaled as i64
        }
    }
}

/// Where the buffer's leading edge sits on an axis under `Center`.
fn center_offset(w: usize, b: usize) -> (r: i64)
    requires
        w <= MAX_WINDOW_DIMENSION,
        b <= MAX_DIMENSION,
    ensures
        r as int == spec_center_offset(w as int, b as int),
{
    if w >= b {
        ((w - b) / 2) as i64
    } else {
        -(((b - w) / 2) as i64)
    }
}

/// Under `Stretch`, a window whose extent is an exact multiple `s` of the
/// buffer's extent maps the window coordinate `i * s` back to buffer
/// coordinate `i`: the inverse transform undoes the forward blit exactly, one
/// buffer pixel at a time.
pub proof fn lemma_stretch_round_trip(b: int, s: int, i: int)
    requires
        1 <= b,
        1 <= s,
        0 <= i <= b,
    ensures
        spec_map_stretch_axis(i * s, s * b, b) == i,
{
    assert(s * b >= 1) by (nonlinear_arith)
        requires
            s >= 1,
            b >= 1,
    ;
    assert((i * s) * b == (s * b) * i) by (nonlinear_arith);
    lemma_div_multiples_vanish(i, s * b);
}

/// Under `AspectRatioStretch`, every window point inside the area the
/// buffer is blitted to — the `span`-wide strip starting at `off`, scaled
/// by `num / den` — maps into the buffer's bounds, and every point in the
/// letterbox margins maps out of them.
pub proof fn lemma_aspect_axis_exact(p: int, off: int, span: int, num: int, den: int, b: int)
    requires
        1 <= num,
        1 <= den,
        1 <= b,
        0 <= off,
        span == b * num / den,
    ensures
        off <= p < off + span ==> 0 <= spec_aspect_axis(p, off, span, num, den, b) < b,
        p < off ==> spec_aspect_axis(p, off, span, num, den, b) == -1,
        p >= off + span ==> spec_aspect_axis(p, off, span, num, den, b) == b,
{
    if off <= p < off + span {
        let q = p - off;
        vstd::arithmetic::div_mod::lemma_remainder_lower(b * num, den);
        assert(span * den <= b * num) by (nonlinear_arith)
            requires
                span == b * num / den,
                (b * num / den) * den <= b * num,
        ;
        assert(q * den <= span * den - den) by (nonlinear_arith)
            requires
                q <= span - 1,
                den >= 1,
        ;
        assert(q * den < num * b) by (nonlinear_arith)
            requires
                q * den <= b * num - den,
                den >= 1,
        ;
        lemma_multiply_divide_lt(q * den, num, b);
        vstd::arithmetic::div_mod::lemma_div_pos_is_pos(q * den, num);
        assert(q * den >= 0) by (nonlinear_arith)
            requires
                q >= 0,
                den >= 1,
        ;
    }
}

/// Under `Stretch`, every window point inside the window maps into the
/// buffer's bounds.
pub proof fn lemma_stretch_in_bounds(p: int, w: int, b: int)
    requires
        1 <= w,
        1 <= b,
        0 <= p < w,
    ensures
        0 <= spec_map_stretch_axis(p, w, b) < b,
{
    assert(p * b < w * b) by (nonlinear_arith)
        requires
            0 <= p < w,
            b >= 1,
    ;
    lemma_multiply_divide_lt(p * b, w, b);
    vstd::arithmetic::div_mod::lemma_div_pos_is_pos(p * b, w);
    assert(p * b >= 0) by (nonlinear_arith)
        requires
            p >= 0,
            b >= 1,
    ;
}

} // verus!
