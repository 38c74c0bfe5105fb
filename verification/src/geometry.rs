//! Plain geometric values shared by the two faces, and integer division
//! as machine integers do it (rounding toward zero).

use vstd::prelude::*;

verus! {

/// The drawable size of the clock's panel, in pixels.
#[derive(Clone, Copy, Debug, PartialEq, Eq)]
pub struct ClientSize {
    pub width: i32,
    pub height: i32,
}

/// An opaque colour by its red, green and blue components.
#[derive(Clone, Copy, Debug, PartialEq, Eq)]
pub struct Rgb {
    pub r: u8,
    pub g: u8,
    pub b: u8,
}

/// An axis-aligned rectangle: its top-left corner and its extent.
#[derive(Clone, Copy, Debug, PartialEq, Eq)]
pub struct Rect {
    pub x: i32,
    pub y: i32,
    pub width: i32,
    pub height: i32,
}

/// The font families the clock uses.
#[derive(Clone, Copy, Debug, PartialEq, Eq, Structural)]
pub enum FontFamily {
    Swiss,
    Modern,
}

/// A font to set text in.
#[derive(Clone, Copy, Debug, PartialEq, Eq, Structural)]
pub struct FontSpec {
    pub point_size: i32,
    pub family: FontFamily,
    pub bold: bool,
}

/// `v`, or 1 where `v` is smaller.
pub open spec fn at_least_one(v: int) -> int {
    if v >= 1 { v } else { 1 }
}

/// The larger of two integers.
pub open spec fn max_int(a: int, b: int) -> int {
    if a >= b { a } else { b }
}

/// The smaller of two integers.
pub open spec fn min_int(a: int, b: int) -> int {
    if a <= b { a } else { b }
}

/// `a / b` rounded toward zero, for a positive `b`.
pub open spec fn div_toward_zero(a: int, b: int) -> int
    recommends
        b > 0,
{
    if a >= 0 { a / b } else { -((-a) / b) }
}

/// The remainder that goes with `div_toward_zero`: it has the sign of `a`.
pub open spec fn rem_toward_zero(a: int, b: int) -> int
    recommends
        b > 0,
{
    a - b * div_toward_zero(a, b)
}

/// Halves `a`, rounding toward zero.
pub fn half_toward_zero(a: i64) -> (r: i64)
    ensures
        r == div_toward_zero(a as int, 2),
{
    if a >= 0 {
        a / 2
    } else {
        let m: u64 = (-(a as i128)) as u64;
        let h: u64 = m / 2;
        -(h as i64)
    }
}

/// The remainder of `a` by twelve, with the sign of `a`.
pub fn rem_twelve(a: i16) -> (r: i16)
    ensures
        r == rem_toward_zero(a as int, 12),
        -12 < r < 12,
{
    if a >= 0 {
        a % 12
    } else {
        let m: i32 = -(a as i32);
        let q: i32 = m % 12;
        proof {
            assert(div_toward_zero(a as int, 12) == -(m / 12));
            assert(m == 12 * (m / 12) + m % 12);
        }
        (-q) as i16
    }
}

} // verus!
