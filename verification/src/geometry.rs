//! Coordinates, sizes and the fixed layout of the intersection.
//!
//! Every length is a whole number of hundredths of a pixel, so that the
//! simulation runs on integers; one pixel is [`PIXEL`] units.
use vstd::prelude::*;

verus! {

/// Units in one pixel.
pub const PIXEL: i64 = 100;

/// How far a driving car moves in one frame: one pixel.
pub const STEP: i64 = 100;

/// The near edge of the junction (320 px), on both axes.
pub const NEAR: i64 = 32000;

/// The centre line of the roads (400 px), on both axes.
pub const MIDDLE: i64 = 40000;

/// The far edge of the junction (480 px), on both axes.
pub const FAR: i64 = 48000;

/// The lane of cars that drive up, and of cars that drive right (420 px).
pub const LANE_HIGH: i64 = 42000;

/// The lane of cars that drive down, and of cars that drive left (340 px).
pub const LANE_LOW: i64 = 34000;

/// The distance below which a car stops behind an earlier one (70 px).
pub const GAP: i64 = 7000;

/// The allowance in the turning rules (20 px).
pub const TURN_MARGIN: i64 = 2000;

/// The open box inside which a car counts as standing in the junction
/// (from 321 px to 479 px on both axes).
pub const BOX_LOW: i64 = 32100;

/// See [`BOX_LOW`].
pub const BOX_HIGH: i64 = 47900;

/// The size of the window, in units.
#[derive(Clone, Copy, Debug)]
pub struct Screen {
    pub width: u32,
    pub height: u32,
}

/// A straight line from `(x1, y1)` to `(x2, y2)`.
#[derive(Clone, Copy, Debug, PartialEq, Eq, Structural)]
pub struct Line {
    pub x1: i64,
    pub y1: i64,
    pub x2: i64,
    pub y2: i64,
}

/// How far from the origin (2^24 pixels) a coordinate can still move by one
/// pixel. A single-precision coordinate that would move beyond it is rounded
/// back, so the coordinates of the simulation stop there.
pub const REACH: i64 = 1_677_721_600;

/// `v` moved by `delta`, or `v` itself where the move would leave the reach of
/// the coordinates (see [`REACH`]).
pub open spec fn shift(v: i64, delta: int) -> i64 {
    if -REACH <= v + delta <= REACH {
        (v + delta) as i64
    } else {
        v
    }
}

/// Moves `v` by `delta` within the reach of the coordinates (see [`shift`]).
pub fn shifted(v: i64, delta: i64) -> (r: i64)
    ensures
        r == shift(v, delta as int),
{
    let moved = (v as i128) + (delta as i128);
    if -(REACH as i128) <= moved && moved <= REACH as i128 {
        moved as i64
    } else {
        v
    }
}

/// `value * num / den` rounded to the nearest unit (halves up).
pub open spec fn ratio(value: u32, num: u64, den: u64) -> int {
    (2 * value * num + den) / (2 * den)
}

/// A share of a screen length, in whole units (see [`ratio`]).
pub fn scaled(value: u32, num: u64, den: u64) -> (r: i64)
    requires
        0 < den <= 10000,
        num <= 10,
    ensures
        r == ratio(value, num, den),
        0 <= r <= value * num,
{
    let v = value as u64;
    assert(v * num <= 42949672950) by (nonlinear_arith)
        requires
            v <= 4294967295,
            num <= 10,
    ;
    let vn = v * num;
    assert(2 * value * num == 2 * vn) by (nonlinear_arith)
        requires
            vn == v * num,
            v == value,
    ;
    let q = (2 * vn + den) / (2 * den);
    assert(q <= vn) by (nonlinear_arith)
        requires
            q == (2 * vn + den) / (2 * den),
            den > 0,
    ;
    q as i64
}

} // verus!
