use minifb::clamp;
use minifb::map_window_to_buffer;
use minifb::window_size_for;
use minifb::Scale;
use minifb::ScaleContext;
use minifb::ScaleMode;

#[test]
fn clamp_picks_the_nearer_bound() {
    assert_eq!(clamp(0, 300, 255), 255);
    assert_eq!(clamp(10, 3, 255), 10);
    assert_eq!(clamp(0, 128, 255), 128);
}

#[test]
fn fixed_scales_multiply_the_buffer() {
    assert_eq!(window_size_for(Scale::X1, 320, 200, 0, 0), (320, 200));
    assert_eq!(window_size_for(Scale::X2, 320, 200, 0, 0), (640, 400));
    assert_eq!(window_size_for(Scale::X32, 320, 200, 0, 0), (10240, 6400));
}

#[test]
fn fit_screen_picks_the_largest_multiple_that_fits() {
    assert_eq!(window_size_for(Scale::FitScreen, 320, 200, 1920, 1080), (1280, 800));
    assert_eq!(window_size_for(Scale::FitScreen, 320, 200, 20000, 20000), (10240, 6400));
    // Not even double fits: the window still opens at one.
    assert_eq!(window_size_for(Scale::FitScreen, 320, 200, 400, 250), (320, 200));
}

fn ctx(mode: ScaleMode, bw: usize, bh: usize, ww: usize, wh: usize) -> ScaleContext {
    ScaleContext {
        scale: Scale::X1,
        scale_mode: mode,
        buffer_w: bw,
        buffer_h: bh,
        window_w: ww,
        window_h: wh,
    }
}

#[test]
fn stretch_round_trip_at_twice_the_size() {
    let c = ctx(ScaleMode::Stretch, 320, 200, 640, 400);
    assert_eq!(map_window_to_buffer(&c, 0, 0), (0, 0));
    assert_eq!(map_window_to_buffer(&c, 640, 400), (320, 200));
    assert_eq!(map_window_to_buffer(&c, 321, 399), (160, 199));
}

#[test]
fn upper_left_is_the_identity() {
    let c = ctx(ScaleMode::UpperLeft, 320, 200, 640, 400);
    assert_eq!(map_window_to_buffer(&c, 17, 23), (17, 23));
    assert_eq!(map_window_to_buffer(&c, 639, 399), (639, 399));
}

#[test]
fn center_shifts_by_half_the_slack() {
    let c = ctx(ScaleMode::Center, 320, 200, 640, 400);
    // The buffer sits at (160, 100).
    assert_eq!(map_window_to_buffer(&c, 160, 100), (0, 0));
    assert_eq!(map_window_to_buffer(&c, 0, 0), (-160, -100));
    // A window smaller than the buffer shows the buffer's middle.
    let small = ctx(ScaleMode::Center, 320, 200, 100, 100);
    assert_eq!(map_window_to_buffer(&small, 0, 0), (110, 50));
}

#[test]
fn aspect_ratio_stretch_letterboxes_the_looser_axis() {
    // 320x200 into 800x400: the height binds, scale 2, span 640x400,
    // margins of 80 window pixels left and right.
    let c = ctx(ScaleMode::AspectRatioStretch, 320, 200, 800, 400);
    assert_eq!(map_window_to_buffer(&c, 80, 0), (0, 0));
    assert_eq!(map_window_to_buffer(&c, 719, 399), (319, 199));
    // Points in the margins land out of bounds.
    assert_eq!(map_window_to_buffer(&c, 10, 10), (-1, 5));
    assert_eq!(map_window_to_buffer(&c, 790, 10), (320, 5));
}
