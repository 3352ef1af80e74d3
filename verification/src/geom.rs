//! Fixed-point 2D coordinates.
//!
//! All world positions are measured in subpixels: thousandths of a pixel,
//! held in `i64`. This keeps sub-pixel movement (speed times a millisecond
//! delta) exact, where the renderer itself only ever needs whole-pixel
//! precision. The host divides by `SUBPIXELS` when it fills the GPU-side
//! float attributes.

use vstd::prelude::*;

verus! {

/// Subpixel units per pixel.
pub const SUBPIXELS: i64 = 1000;

/// A 2D point or displacement in subpixel units.
#[derive(Clone, Copy, Debug, PartialEq, Eq, Structural)]
pub struct Vec2 {
    pub x: i64,
    pub y: i64,
}

impl Vec2 {
    pub fn new(x: i64, y: i64) -> (v: Vec2)
        ensures
            v.x == x,
            v.y == y,
    {
        Vec2 { x, y }
    }
}

/// Floor division, as mathematical `/` rounds for a positive divisor.
pub open spec fn floor_div_spec(a: int, b: int) -> int {
    a / b
}

/// Remainder matching `floor_div_spec`; lies in `[0, b)` for `b > 0`.
pub open spec fn floor_mod_spec(a: int, b: int) -> int {
    a % b
}

/// Division rounding toward negative infinity, unlike Rust's `/` which
/// rounds toward zero.
pub fn floor_div(a: i64, b: i64) -> (q: i64)
    requires
        b > 0,
        i64::MIN < a,
    ensures
        q == floor_div_spec(a as int, b as int),
{
    proof {
        lemma_floor_div_in_range(a as int, b as int);
    }
    match a.checked_div_euclid(b) {
        Some(q) => q,
        None => 0,
    }
}

/// For a positive divisor the quotient stays within the dividend's range.
proof fn lemma_floor_div_in_range(a: int, b: int)
    requires
        b > 0,
        i64::MIN < a <= i64::MAX,
    ensures
        i64::MIN < a / b <= i64::MAX,
{
    vstd::arithmetic::div_mod::lemma_fundamental_div_mod(a, b);
    vstd::arithmetic::div_mod::lemma_mod_division_less_than_divisor(a, b);
    let q = a / b;
    let r = a % b;
    assert(a == b * q + r && 0 <= r < b);
    assert(i64::MIN < q <= i64::MAX) by (nonlinear_arith)
        requires
            b > 0,
            i64::MIN < a <= i64::MAX,
            a == b * q + r,
            0 <= r < b,
    {
    }
}

/// Remainder for `floor_div`: always in `[0, b)`.
pub fn floor_mod(a: i64, b: i64) -> (r: i64)
    requires
        b > 0,
        i64::MIN < a,
    ensures
        r == floor_mod_spec(a as int, b as int),
        0 <= r < b,
{
    proof {
        vstd::arithmetic::div_mod::lemma_mod_division_less_than_divisor(a as int, b as int);
        vstd::arithmetic::div_mod::lemma_mod_bound(a as int, b as int);
    }
    match a.checked_rem_euclid(b) {
        Some(r) => r,
        None => 0,
    }
}

/// What `towards` computes: move `start` toward `target` by `amount`,
/// stopping at `target` instead of passing it.
pub open spec fn towards_spec(start: int, target: int, amount: int) -> int {
    if start > target {
        if start - amount < target {
            target
        } else {
            start - amount
        }
    } else if start < target {
        if start + amount > target {
            target
        } else {
            start + amount
        }
    } else {
        start
    }
}

/// Move `start` toward `target` by `amount`, clamping at `target`.
pub fn towards(start: i64, target: i64, amount: i64) -> (v: i64)
    requires
        i64::MIN <= start - amount <= i64::MAX,
        i64::MIN <= start + amount <= i64::MAX,
    ensures
        v == towards_spec(start as int, target as int, amount as int),
{
    if start > target {
        let moved = start - amount;
        if moved < target {
            target
        } else {
            moved
        }
    } else if start < target {
        let moved = start + amount;
        if moved > target {
            target
        } else {
            moved
        }
    } else {
        start
    }
}

/// A non-negative step never overshoots: the result stays between `start`
/// and `target`, and the remaining gap shrinks by exactly
/// `min(amount, |target - start|)`. Repeated application therefore
/// converges monotonically to `target`.
pub proof fn lemma_towards_converges(start: int, target: int, amount: int)
    requires
        amount >= 0,
    ensures
        start <= target ==> start <= towards_spec(start, target, amount) <= target,
        target <= start ==> target <= towards_spec(start, target, amount) <= start,
        abs_spec(target - towards_spec(start, target, amount)) == abs_spec(target - start)
            - min_spec(amount, abs_spec(target - start)),
{
}

/// Mathematical absolute value.
pub open spec fn abs_spec(a: int) -> int {
    if a < 0 {
        -a
    } else {
        a
    }
}

/// Mathematical minimum.
pub open spec fn min_spec(a: int, b: int) -> int {
    if a < b {
        a
    } else {
        b
    }
}

/// Absolute value of the gap between two coordinates.
pub fn gap_abs(from: i64, to: i64) -> (d: i64)
    requires
        i64::MIN < to - from <= i64::MAX,
    ensures
        d == abs_spec(to - from),
{
    if to >= from {
        to - from
    } else {
        from - to
    }
}

} // verus!
