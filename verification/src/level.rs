use vstd::prelude::*;

verus! {

/// A channel value in fixed point: the real number `x / UNIT`.
pub type Level = i32;

/// Number of fixed-point steps that make up the real value one.
pub const UNIT: i32 = 1_000_000;

/// The nearest value to `x` inside `lo..=hi`.
pub open spec fn clamp_int(x: int, lo: int, hi: int) -> int {
    if x < lo {
        lo
    } else if x > hi {
        hi
    } else {
        x
    }
}

/// The nearest representable level to the integer `x`.
pub open spec fn saturate(x: int) -> int {
    clamp_int(x, i32::MIN as int, i32::MAX as int)
}

/// Floor division by a positive divisor.
pub fn div_floor(n: i64, d: i64) -> (q: i64)
    requires
        d > 0,
    ensures
        q == n as int / d as int,
{
    if n >= 0 {
        n / d
    } else {
        let m: i64 = -(n + 1);
        let k: i64 = m / d;
        proof {
            assert(n as int / d as int == -(k as int) - 1) by (nonlinear_arith)
                requires
                    d > 0,
                    n < 0,
                    m == -(n + 1),
                    k == m / d,
            ;
        }
        -k - 1
    }
}

/// Brings an exact result back into the range of a level.
pub fn to_level(x: i64) -> (r: Level)
    ensures
        r as int == saturate(x as int),
{
    if x < -2147483648 {
        -2147483648
    } else if x > 2147483647 {
        2147483647
    } else {
        x as i32
    }
}

} // verus!
