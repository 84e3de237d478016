//! Exact geometry of a row of equally wide buttons.
//!
//! A row of `num` buttons along a row of length `width` gives every button the
//! width `width / (num + 1)` and spreads what is left over `num - 1` equal
//! gaps. None of these quotients is an integer in general, so the model keeps
//! every length multiplied by `denominator(num) = num * num - 1`; in that
//! scale all of them are integers and every comparison is exact.
//!
//! The model is free of units: a row may be measured in pixels or in any finer
//! unit, as long as positions use the same one. Contact positions carry
//! `SUBPIXELS` units to the pixel, so the executable hit test measures the row
//! in those; dirty rectangles are in whole pixels.

use vstd::prelude::*;

verus! {

/// Radius of a button's rounded corners, in pixels.
pub const CORNER_RADIUS: u16 = 8;

/// Units of a contact position per pixel: positions are fixed-point numbers
/// with sixteen fractional bits.
pub const SUBPIXELS: u32 = 65536;

/// A rectangle of the physical buffer, `x` running over the row's thickness
/// and `y` along the row, with `(x1, y1)` the low and `(x2, y2)` the high corner.
#[derive(Clone, Copy, Debug, PartialEq, Eq, Structural)]
pub struct ClipRect {
    pub x1: u16,
    pub y1: u16,
    pub x2: u16,
    pub y2: u16,
}

/// The common denominator of all horizontal lengths of a row of `num` buttons.
pub open spec fn denominator(num: int) -> int {
    num * num - 1
}

/// Width of one button, times `denominator(num)`.
pub open spec fn button_width_scaled(num: int, width: int) -> int {
    (num - 1) * width
}

/// Width of one gap between neighbours, times `denominator(num)`.
pub open spec fn gap_scaled(num: int, width: int) -> int {
    width
}

/// Left edge of button `idx`, times `denominator(num)`.
pub open spec fn left_edge_scaled(num: int, idx: int, width: int) -> int {
    idx * (button_width_scaled(num, width) + gap_scaled(num, width))
}

/// Right edge of button `idx`, times `denominator(num)`.
pub open spec fn right_edge_scaled(num: int, idx: int, width: int) -> int {
    left_edge_scaled(num, idx, width) + button_width_scaled(num, width)
}

/// Whether the point `(x, y)` lies on button `idx`: horizontally between its
/// edges, both included, and vertically strictly between 9% and 91% of the
/// row's thickness.
pub open spec fn spec_button_hit(num: int, idx: int, width: int, height: int, x: int, y: int) -> bool {
    &&& left_edge_scaled(num, idx, width) <= x * denominator(num)
    &&& x * denominator(num) <= right_edge_scaled(num, idx, width)
    &&& 9 * height < 100 * y
    &&& 100 * y < 91 * height
}

/// The column under `x` when the row is cut into `num` equal columns.
pub open spec fn spec_column(num: int, width: int, x: int) -> int {
    if width == 0 {
        0
    } else {
        (x * num) / width
    }
}

/// The button that a contact at `(x, y)` lands on, if any: the one of the
/// column under `x`, provided the point lies on it.
pub open spec fn spec_hit_column(num: int, width: int, height: int, x: int, y: int) -> Option<u32> {
    let col = spec_column(num, width, x);
    if col < num && spec_button_hit(num, col, width, height, x, y) {
        Some(col as u32)
    } else {
        None
    }
}

/// A row thickness for which a button's dirty rectangle does not reach
/// below zero: the band above 85% of it has room for the corner radius.
pub open spec fn thickness_fits(height: int) -> bool {
    height - (85 * height) / 100 >= CORNER_RADIUS as int
}

/// The bounding rectangle of button `idx` in buffer coordinates: across the
/// row from 15% to 85% of the thickness, widened by the corner radius and
/// mirrored; along the row from the left edge, rounded down, for the button's
/// width, rounded down.
pub open spec fn spec_button_clip(num: int, idx: int, width: int, height: int) -> ClipRect {
    let top = (85 * height) / 100;
    let bot = (15 * height) / 100;
    let left = left_edge_scaled(num, idx, width) / denominator(num);
    let bw = width / (num + 1);
    ClipRect {
        x1: (height - top - CORNER_RADIUS as int) as u16,
        y1: left as u16,
        x2: (height - bot + CORNER_RADIUS as int) as u16,
        y2: (left + bw) as u16,
    }
}

/// The rectangle that covers the whole buffer.
pub open spec fn spec_full_clip(width: int, height: int) -> ClipRect {
    ClipRect { x1: 0, y1: 0, x2: height as u16, y2: width as u16 }
}

/// Buttons and gaps together fill the row exactly.
pub proof fn lemma_row_is_filled(num: int, width: int)
    requires
        num >= 2,
        width >= 0,
    ensures
        num * button_width_scaled(num, width) + (num - 1) * gap_scaled(num, width) == width
            * denominator(num),
        right_edge_scaled(num, num - 1, width) == width * denominator(num),
        left_edge_scaled(num, 0, width) == 0,
{
    assert(num * ((num - 1) * width) + (num - 1) * width == width * (num * num - 1))
        by (nonlinear_arith);
    assert((num - 1) * ((num - 1) * width + width) + (num - 1) * width == width * (num * num - 1))
        by (nonlinear_arith);
}

/// A button ends where its right neighbour begins, less one gap: neighbours
/// never overlap.
pub proof fn lemma_neighbours_apart(num: int, idx: int, width: int)
    requires
        num >= 2,
        width >= 0,
        0 <= idx,
        idx + 1 < num,
    ensures
        right_edge_scaled(num, idx, width) + gap_scaled(num, width) == left_edge_scaled(
            num,
            idx + 1,
            width,
        ),
        right_edge_scaled(num, idx, width) <= left_edge_scaled(num, idx + 1, width),
{
    assert((idx + 1) * ((num - 1) * width + width) == idx * ((num - 1) * width + width) + ((num
        - 1) * width + width)) by (nonlinear_arith);
}

/// A point lies on at most one button of a row of positive length.
pub proof fn lemma_hit_is_unique(num: int, i: int, j: int, width: int, height: int, x: int, y: int)
    requires
        num >= 2,
        width > 0,
        0 <= i < j,
        spec_button_hit(num, i, width, height, x, y),
    ensures
        !spec_button_hit(num, j, width, height, x, y),
{
    let pitch = (num - 1) * width + width;
    assert(pitch > (num - 1) * width);
    assert(j * pitch >= (i + 1) * pitch) by (nonlinear_arith)
        requires
            j >= i + 1,
            pitch >= 0,
    ;
    assert((i + 1) * pitch == i * pitch + pitch) by (nonlinear_arith);
}

/// Bounds of the scaled lengths for machine-sized arguments.
proof fn lemma_scaled_bounds(num: int, idx: int, width: int, x: int)
    requires
        2 <= num <= u32::MAX,
        0 <= idx <= u32::MAX,
        0 <= width <= u32::MAX,
        0 <= x <= u32::MAX,
    ensures
        4 <= num * num < 0x1_0000_0000_0000_0000,
        0 <= (num - 1) * width < 0x1_0000_0000_0000_0000,
        0 <= idx * ((num - 1) * width + width) < 0x1_0000_0000_0000_0000_0000_0000,
        0 <= x * (num * num - 1) < 0x1_0000_0000_0000_0000_0000_0000,
        0 <= x * num < 0x1_0000_0000_0000_0000,
{
    assert(4 <= num * num < 0x1_0000_0000_0000_0000) by (nonlinear_arith)
        requires
            2 <= num <= 0xffff_ffff,
    ;
    assert(0 <= (num - 1) * width < 0x1_0000_0000_0000_0000) by (nonlinear_arith)
        requires
            2 <= num <= 0xffff_ffff,
            0 <= width <= 0xffff_ffff,
    ;
    let pitch = (num - 1) * width + width;
    assert(0 <= pitch < 0x1_0000_0000_0000_0000) by (nonlinear_arith)
        requires
            pitch == (num - 1) * width + width,
            2 <= num <= 0xffff_ffff,
            0 <= width <= 0xffff_ffff,
    ;
    assert(0 <= idx * pitch < 0x1_0000_0000_0000_0000_0000_0000) by (nonlinear_arith)
        requires
            0 <= idx <= 0xffff_ffff,
            0 <= pitch < 0x1_0000_0000_0000_0000,
    ;
    let d = num * num - 1;
    assert(0 <= x * d < 0x1_0000_0000_0000_0000_0000_0000) by (nonlinear_arith)
        requires
            0 <= x <= 0xffff_ffff,
            0 <= d < 0x1_0000_0000_0000_0000,
    ;
    assert(0 <= x * num < 0x1_0000_0000_0000_0000) by (nonlinear_arith)
        requires
            0 <= x <= 0xffff_ffff,
            0 <= num <= 0xffff_ffff,
    ;
}

/// The column search misses no button: a point within the row that lies on
/// button `idx` falls into column `idx`, so that button is the one found.
pub proof fn lemma_column_finds_hit(num: int, idx: int, width: int, height: int, x: int, y: int)
    requires
        num >= 2,
        0 <= idx < num,
        0 <= x < width,
        spec_button_hit(num, idx, width, height, x, y),
    ensures
        spec_column(num, width, x) == idx,
        spec_hit_column(num, width, height, x, y) == Some(idx as u32),
{
    let d = num * num - 1;
    assert(d >= 3) by (nonlinear_arith)
        requires
            d == num * num - 1,
            num >= 2,
    ;
    assert(idx * ((num - 1) * width + width) == idx * num * width) by (nonlinear_arith);
    // Lower bound: idx * width <= x * num.
    assert(idx * width <= x * num) by (nonlinear_arith)
        requires
            idx * num * width <= x * d,
            d == num * num - 1,
            num >= 2,
            idx >= 0,
            width > 0,
            x >= 0,
    {
        assert((x * num) * d >= (idx * width) * (num * num));
        assert((idx * width) * (num * num) >= (idx * width) * d);
    }
    // Upper bound: x * num < (idx + 1) * width.
    if idx == num - 1 {
        assert(x * num < (idx + 1) * width) by (nonlinear_arith)
            requires
                x < width,
                idx + 1 == num,
                num >= 2,
        ;
    } else {
        assert(x * num < (idx + 1) * width) by (nonlinear_arith)
            requires
                x * d <= idx * num * width + (num - 1) * width,
                d == num * num - 1,
                num >= 2,
                0 <= idx < num - 1,
                width > 0,
                x >= 0,
        {
            assert((x * num) * d <= (idx * num * num + num * num - num) * width);
            assert((idx + 1) * width * d == (idx * num * num - idx + num * num - 1) * width);
            assert((idx * num * num + num * num - num) * width < (idx * num * num - idx + num * num
                - 1) * width);
        }
    }
    let q = (x * num) / width;
    assert(q == idx) by (nonlinear_arith)
        requires
            q == (x * num) / width,
            idx * width <= x * num,
            x * num < (idx + 1) * width,
            width > 0,
    ;
}

/// Whether a row of this thickness has room for the dirty rectangles.
pub fn fits_thickness(height: u16) -> (r: bool)
    ensures
        r == thickness_fits(height as int),
{
    let h: u32 = height as u32;
    h - (85 * h) / 100 >= CORNER_RADIUS as u32
}

/// A length of whole pixels in the units of contact positions.
pub fn to_subpixels(len: u16) -> (r: u32)
    ensures
        r == len * SUBPIXELS,
{
    assert(SUBPIXELS == 65536);
    (len as u32) * 65536
}

/// Whether the point `(x, y)`, in fixed point, lies on button `idx` of a row
/// of `num` buttons that is `width` pixels long and `height` pixels thick.
pub fn button_hit(num: u32, idx: u32, width: u16, height: u16, x: u32, y: u32) -> (hit: bool)
    requires
        num >= 2,
    ensures
        hit == spec_button_hit(
            num as int,
            idx as int,
            width * SUBPIXELS,
            height * SUBPIXELS,
            x as int,
            y as int,
        ),
{
    proof {
        lemma_scaled_bounds(num as int, idx as int, width * SUBPIXELS, x as int);
    }
    let n: u128 = num as u128;
    let w: u128 = to_subpixels(width) as u128;
    let d: u128 = n * n - 1;
    let bw: u128 = (n - 1) * w;
    let pitch: u128 = bw + w;
    let left: u128 = (idx as u128) * pitch;
    let pos: u128 = (x as u128) * d;
    if pos < left || pos > left + bw {
        return false;
    }
    let h: u64 = to_subpixels(height) as u64;
    let yy: u64 = y as u64;
    100 * yy > 9 * h && 100 * yy < 91 * h
}

/// The button that a contact at `(x, y)`, in fixed point, lands on, if any.
pub fn hit_column(num: u32, width: u16, height: u16, x: u32, y: u32) -> (col: Option<u32>)
    requires
        num >= 2,
    ensures
        col == spec_hit_column(
            num as int,
            width * SUBPIXELS,
            height * SUBPIXELS,
            x as int,
            y as int,
        ),
{
    let c: u64 = if width == 0 {
        0
    } else {
        proof {
            lemma_scaled_bounds(num as int, 0, width * SUBPIXELS, x as int);
        }
        ((x as u64) * (num as u64)) / (to_subpixels(width) as u64)
    };
    if c < num as u64 && button_hit(num, c as u32, width, height, x, y) {
        Some(c as u32)
    } else {
        None
    }
}

/// The bounding rectangle of button `idx`, in buffer coordinates.
pub fn button_clip(num: u32, idx: u32, width: u16, height: u16) -> (clip: ClipRect)
    requires
        num >= 2,
        idx < num,
        thickness_fits(height as int),
    ensures
        clip == spec_button_clip(num as int, idx as int, width as int, height as int),
        clip.x1 <= clip.x2,
        clip.y1 <= clip.y2 <= width,
{
    proof {
        lemma_scaled_bounds(num as int, idx as int, width as int, 0);
    }
    let n: u128 = num as u128;
    let w: u128 = width as u128;
    let d: u128 = n * n - 1;
    let pitch: u128 = (n - 1) * w + w;
    let left: u128 = ((idx as u128) * pitch) / d;
    let bw: u128 = w / (n + 1);
    proof {
        lemma_clip_within_row(num as int, idx as int, width as int);
    }
    let h: u32 = height as u32;
    let top: u32 = (85 * h) / 100;
    let bot: u32 = (15 * h) / 100;
    ClipRect {
        x1: (h - top - CORNER_RADIUS as u32) as u16,
        y1: left as u16,
        x2: (h - bot + CORNER_RADIUS as u32) as u16,
        y2: (left + bw) as u16,
    }
}

/// The rectangle that covers the whole buffer.
pub fn full_clip(width: u16, height: u16) -> (clip: ClipRect)
    ensures
        clip == spec_full_clip(width as int, height as int),
{
    ClipRect { x1: 0, y1: 0, x2: height, y2: width }
}

/// Rounded down, a button's left edge and width still end within the row.
pub proof fn lemma_clip_within_row(num: int, idx: int, width: int)
    requires
        num >= 2,
        0 <= idx < num,
        width >= 0,
    ensures
        0 <= left_edge_scaled(num, idx, width) / denominator(num),
        0 <= width / (num + 1),
        left_edge_scaled(num, idx, width) / denominator(num) + width / (num + 1) <= width,
{
    let d = denominator(num);
    let e = left_edge_scaled(num, idx, width);
    let left = e / d;
    let bw = width / (num + 1);
    assert(d >= 3) by (nonlinear_arith)
        requires
            d == num * num - 1,
            num >= 2,
    ;
    assert(0 <= e <= (num - 1) * (num * width)) by (nonlinear_arith)
        requires
            e == idx * ((num - 1) * width + width),
            0 <= idx <= num - 1,
            width >= 0,
            num >= 2,
    ;
    assert(0 <= left && left * d <= e) by (nonlinear_arith)
        requires
            left == e / d,
            d > 0,
            e >= 0,
    ;
    assert(0 <= bw && bw * (num + 1) <= width) by (nonlinear_arith)
        requires
            bw == width / (num + 1),
            num + 1 > 0,
            width >= 0,
    ;
    assert(left + bw <= width) by (nonlinear_arith)
        requires
            left * d <= e,
            e <= (num - 1) * (num * width),
            bw * (num + 1) <= width,
            d == num * num - 1,
            num >= 2,
            bw >= 0,
            left >= 0,
            width >= 0,
    ;
}

} // verus!
