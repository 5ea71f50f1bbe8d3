//! Fixed-point numbers.
//!
//! A length, a speed or a scalar is an `i64` counting multiples of `1 / ONE`:
//! the number `ONE` stands for one pixel (or for the scalar 1). `ONE` is
//! `2^3 * 3 * 5^2 * 7 * 11 * 13 * 23`, the least resolution at which every
//! speed, impulse and gap height of the game is a whole number, so the
//! rules of play never round.

use vstd::prelude::*;

verus! {

/// The fixed-point representation of 1.
pub const ONE: i64 = 13_813_800;

/// The product of two fixed-point numbers, rounded down.
pub open spec fn scaled(a: int, b: int) -> int {
    a * b / (ONE as int)
}

/// The quotient of two fixed-point numbers, rounded down.
pub open spec fn quotient(a: int, b: int) -> int {
    a * ONE / b
}

/// Multiplies two non-negative fixed-point numbers.
pub fn scale(a: i64, b: i64) -> (r: i64)
    requires
        0 <= a,
        0 <= b,
        a * b <= i64::MAX,
    ensures
        r == scaled(a as int, b as int),
{
    assert(0 <= a * b) by (nonlinear_arith)
        requires
            0 <= a,
            0 <= b,
    ;
    a * b / ONE
}

/// Divides a non-negative fixed-point number by a positive one.
pub fn ratio(a: i64, b: i64) -> (r: i64)
    requires
        0 <= a,
        0 < b,
        a * ONE <= i64::MAX,
    ensures
        r == quotient(a as int, b as int),
{
    a * ONE / b
}

} // verus!
