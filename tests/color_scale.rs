use mandelbrot_view::color::{lerp, scale_color};

#[test]
fn zero_is_black_for_any_max() {
    assert_eq!(scale_color(0, 0), (0, 0, 0));
    assert_eq!(scale_color(0, 1), (0, 0, 0));
    assert_eq!(scale_color(0, 50), (0, 0, 0));
    assert_eq!(scale_color(0, u16::MAX), (0, 0, 0));
}

#[test]
fn top_value_is_last_anchor() {
    assert_eq!(scale_color(1, 1), (240, 120, 140));
    assert_eq!(scale_color(50, 50), (240, 120, 140));
    assert_eq!(scale_color(u16::MAX, u16::MAX), (240, 120, 140));
}

#[test]
fn smallest_fraction_stays_near_first_anchor() {
    assert_eq!(scale_color(1, 100), (13, 0, 51));
}

#[test]
fn middle_value_blends_second_bucket() {
    // 1/2 selects the bucket between the second and third anchors and blends
    // them at one half.
    assert_eq!(scale_color(50, 100), (65, 73, 171));
    assert_eq!(scale_color(1, 2), (65, 73, 171));
}

#[test]
fn bucket_boundaries_jump() {
    // The blend uses the whole fraction, so the color jumps where the
    // selected bucket changes, and a channel may even fall as the value rises.
    assert_eq!(scale_color(33, 100), (15, 9, 77));
    assert_eq!(scale_color(34, 100), (50, 58, 158));
    assert_eq!(scale_color(66, 100), (80, 87, 183));
    assert_eq!(scale_color(67, 100), (184, 109, 160));
    assert_eq!(scale_color(99, 100), (218, 106, 136));
    assert_eq!(scale_color(1, 3), (50, 58, 158));
    assert_eq!(scale_color(2, 3), (183, 110, 160));
}

#[test]
fn lerp_clamps_and_truncates() {
    assert_eq!(lerp(0, 4, 10, 200), 10);
    assert_eq!(lerp(4, 4, 10, 200), 200);
    assert_eq!(lerp(9, 4, 10, 200), 200);
    assert_eq!(lerp(1, 4, 10, 200), 57);
    assert_eq!(lerp(1, 3, 200, 10), 136);
    assert_eq!(lerp(1, 2, 0, 255), 127);
}
