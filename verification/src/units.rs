//! Fixed-point units and saturating arithmetic.
//!
//! A coordinate, size or speed is an `i32` in tenths of a game unit
//! (the canvas is 900.0 by 330.0 units, so 9000 by 3300 here).  Damage is a
//! `u32` in quarter points, so the bounce responses that add a quarter or a
//! half of an obstacle's damage stay exact.  Coordinate arithmetic clamps to
//! a generous playfield range and damage arithmetic saturates, so no update
//! can overflow whatever state it is given.

use vstd::prelude::*;

verus! {

/// Lowest coordinate value the simulation ever stores, in tenths of a unit.
pub const COORD_MIN: i32 = -1000000;

/// Highest coordinate value the simulation ever stores, in tenths of a unit.
pub const COORD_MAX: i32 = 1000000;

/// Clamp a mathematical integer into the coordinate range.
pub open spec fn clip(v: int) -> int {
    if v < COORD_MIN as int {
        COORD_MIN as int
    } else if v > COORD_MAX as int {
        COORD_MAX as int
    } else {
        v
    }
}

/// Coordinate addition: exact sum, clamped into the coordinate range.
pub open spec fn cadd(a: int, b: int) -> int {
    clip(a + b)
}

/// Saturating addition of damage or score quantities.
pub open spec fn sadd(a: u32, b: u32) -> u32 {
    if a + b <= u32::MAX {
        (a + b) as u32
    } else {
        u32::MAX
    }
}

/// Doubling with saturation, used by the score multiplier.
pub open spec fn sdouble(a: u32) -> u32 {
    if 2 * a <= u32::MAX {
        (2 * a) as u32
    } else {
        u32::MAX
    }
}

/// Add two coordinates, clamping the result into the coordinate range.
pub fn coord_add(a: i32, b: i32) -> (r: i32)
    ensures
        r as int == cadd(a as int, b as int),
{
    let s: i64 = a as i64 + b as i64;
    if s < COORD_MIN as i64 {
        COORD_MIN
    } else if s > COORD_MAX as i64 {
        COORD_MAX
    } else {
        s as i32
    }
}

/// Clamp an already-computed wide sum into the coordinate range.
pub fn coord_clip(v: i64) -> (r: i32)
    ensures
        r as int == clip(v as int),
{
    if v < COORD_MIN as i64 {
        COORD_MIN
    } else if v > COORD_MAX as i64 {
        COORD_MAX
    } else {
        v as i32
    }
}

/// Subtract one coordinate from another, clamping into the coordinate range.
pub fn coord_sub(a: i32, b: i32) -> (r: i32)
    ensures
        r as int == cadd(a as int, -(b as int)),
{
    let s: i64 = a as i64 - b as i64;
    coord_clip(s)
}

/// Flooring division by a positive divisor, matching the mathematical
/// (Euclidean) division that specifications use.
pub fn floor_div(a: i64, d: i64) -> (r: i64)
    requires
        0 < d <= 0x1_0000_0000,
        -0x1000_0000_0000_0000 <= a <= 0x1000_0000_0000_0000,
    ensures
        r == a as int / d as int,
{
    if a >= 0 {
        a / d
    } else {
        let q: i64 = (-a + d - 1) / d;
        proof {
            let b: int = -(a as int);
            let di: int = d as int;
            vstd::arithmetic::div_mod::lemma_fundamental_div_mod(b + di - 1, di);
            let qq: int = (b + di - 1) / di;
            let rr: int = (b + di - 1) % di;
            assert((-qq) * di == -(qq * di)) by (nonlinear_arith);
            vstd::arithmetic::div_mod::lemma_fundamental_div_mod_converse_div(
                -b,
                di,
                -qq,
                di - 1 - rr,
            );
        }
        -q
    }
}

/// Add damage or score, saturating at the top of the `u32` range.
pub fn sat_add(a: u32, b: u32) -> (r: u32)
    ensures
        r == sadd(a, b),
{
    if a <= u32::MAX - b {
        a + b
    } else {
        u32::MAX
    }
}

/// Double a value, saturating at the top of the `u32` range.
pub fn sat_double(a: u32) -> (r: u32)
    ensures
        r == sdouble(a),
{
    if a <= u32::MAX / 2 {
        2 * a
    } else {
        u32::MAX
    }
}

} // verus!
