//! Maps an instability value to an RGB color by linear interpolation across a
//! fixed palette of five anchors.
use vstd::prelude::*;

verus! {

/// An RGB color, one byte per channel.
pub type Rgb = (u8, u8, u8);

/// The color of points that never escaped.
pub open spec fn no_escape_color() -> Rgb {
    (0u8, 0u8, 0u8)
}

/// The palette anchors, evenly spaced over `[0, 1]`.
pub open spec fn palette(i: int) -> Rgb {
    if i == 0 {
        (13u8, 0u8, 51u8)
    } else if i == 1 {
        (20u8, 28u8, 132u8)
    } else if i == 2 {
        (111u8, 118u8, 210u8)
    } else if i == 3 {
        (220u8, 106u8, 136u8)
    } else {
        (240u8, 120u8, 140u8)
    }
}

/// Blend of `low` and `high` at the fraction `num / den`, clamped to
/// `[0, 1]`, truncated to an integer.
pub open spec fn blend(num: int, den: int, low: int, high: int) -> int {
    if num >= den {
        high
    } else if num <= 0 {
        low
    } else {
        (low * (den - num) + high * num) / den
    }
}

/// Index of the lower anchor for the fraction `value / max_value`:
/// `floor(value / max_value * 3)`.
pub open spec fn low_anchor(value: int, max_value: int) -> int {
    (3 * value) / max_value
}

/// The color of `value` on a scale whose top is `max_value`. Each channel is
/// blended between the selected anchor and the next one by the whole fraction
/// `value / max_value`, not by the position inside the selected bucket.
pub open spec fn color_of(value: int, max_value: int) -> Rgb {
    if value == 0 {
        no_escape_color()
    } else {
        let k = low_anchor(value, max_value);
        (
            blend(value, max_value, palette(k).0 as int, palette(k + 1).0 as int) as u8,
            blend(value, max_value, palette(k).1 as int, palette(k + 1).1 as int) as u8,
            blend(value, max_value, palette(k).2 as int, palette(k + 1).2 as int) as u8,
        )
    }
}

fn anchor(i: usize) -> (r: Rgb)
    requires
        i < 5,
    ensures
        r == palette(i as int),
{
    if i == 0 {
        (13, 0, 51)
    } else if i == 1 {
        (20, 28, 132)
    } else if i == 2 {
        (111, 118, 210)
    } else if i == 3 {
        (220, 106, 136)
    } else {
        (240, 120, 140)
    }
}

/// Linear interpolation between `low` and `high` at the fraction `num / den`,
/// clamped to `[0, 1]` and truncated toward zero.
pub fn lerp(num: u16, den: u16, low: u8, high: u8) -> (r: u8)
    requires
        den > 0,
    ensures
        r as int == blend(num as int, den as int, low as int, high as int),
{
    if num >= den {
        high
    } else if num == 0 {
        low
    } else {
        let n = num as u64;
        let d = den as u64;
        let lo = low as u64;
        let hi = high as u64;
        assert(lo * (d - n) <= 255 * d) by (nonlinear_arith)
            requires lo <= 255, n < d;
        assert(hi * n <= 255 * d) by (nonlinear_arith)
            requires hi <= 255, n < d;
        let total = lo * (d - n) + hi * n;
        assert(total <= 255 * (d - n) + 255 * n) by (nonlinear_arith)
            requires total == lo * (d - n) + hi * n, lo <= 255, hi <= 255, n < d;
        assert(total / d <= 255) by (nonlinear_arith)
            requires total <= 255 * (d - n) + 255 * n, d > 0, n < d;
        (total / d) as u8
    }
}

/// The color of an instability value, normalised by the largest value of
/// its grid: black for `0`, else a blend across the palette.
pub fn scale_color(value: u16, max_value: u16) -> (r: Rgb)
    requires
        value <= max_value,
    ensures
        r == color_of(value as int, max_value as int),
        value == 0 ==> r == no_escape_color(),
        value > 0 && value == max_value ==> r == palette(4),
{
    if value == 0 {
        return (0, 0, 0);
    }
    let k = ((3 * value as u32) / max_value as u32) as usize;
    assert(k <= 3) by (nonlinear_arith)
        requires k == (3 * value) / max_value as int, value <= max_value, max_value > 0;
    if value == max_value {
        assert(k == 3) by (nonlinear_arith)
            requires k == (3 * value) / max_value as int, value == max_value, value > 0;
    }
    let lo = anchor(k);
    let hi = anchor(k + 1);
    (
        lerp(value, max_value, lo.0, hi.0),
        lerp(value, max_value, lo.1, hi.1),
        lerp(value, max_value, lo.2, hi.2),
    )
}

} // verus!
