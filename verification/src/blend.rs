use vstd::prelude::*;
use crate::level::{clamp_int, div_floor, saturate, to_level, Level, UNIT};

verus! {

/// The exact quotient `num / den`, rounded down and brought into the range of a level.
pub open spec fn spec_blend(num: int, den: int) -> Level {
    saturate(num / den) as Level
}

/// The exact quotient `num / den`, rounded down and brought into the range of a level.
pub fn blend(num: i64, den: i64) -> (r: Level)
    requires
        den > 0,
    ensures
        r == spec_blend(num as int, den as int),
{
    to_level(div_floor(num, den))
}

/// Half of `a + b`.
pub open spec fn spec_mean(a: Level, b: Level) -> Level {
    spec_blend(a + b, 2)
}

/// Half of `a + b`.
#[verifier::when_used_as_spec(spec_mean)]
pub fn mean(a: Level, b: Level) -> (r: Level)
    ensures
        r == spec_mean(a, b),
{
    let (a, b): (i64, i64) = (a as i64, b as i64);
    blend(a + b, 2)
}

/// A quarter of `a + b + c + d`.
pub open spec fn spec_mean4(a: Level, b: Level, c: Level, d: Level) -> Level {
    spec_blend(a + b + c + d, 4)
}

/// A quarter of `a + b + c + d`.
#[verifier::when_used_as_spec(spec_mean4)]
pub fn mean4(a: Level, b: Level, c: Level, d: Level) -> (r: Level)
    ensures
        r == spec_mean4(a, b, c, d),
{
    let (a, b, c, d): (i64, i64, i64, i64) = (a as i64, b as i64, c as i64, d as i64);
    blend(a + b + c + d, 4)
}

/// Three quarters of `major` plus one quarter of `minor`.
pub open spec fn spec_weighted(major: Level, minor: Level) -> Level {
    spec_blend(3 * major + minor, 4)
}

/// Three quarters of `major` plus one quarter of `minor`.
#[verifier::when_used_as_spec(spec_weighted)]
pub fn weighted(major: Level, minor: Level) -> (r: Level)
    ensures
        r == spec_weighted(major, minor),
{
    let (major, minor): (i64, i64) = (major as i64, minor as i64);
    blend(3 * major + minor, 4)
}

/// `a - b`.
pub open spec fn spec_difference(a: Level, b: Level) -> Level {
    spec_blend(a - b, 1)
}

/// `a - b`.
#[verifier::when_used_as_spec(spec_difference)]
pub fn difference(a: Level, b: Level) -> (r: Level)
    ensures
        r == spec_difference(a, b),
{
    let (a, b): (i64, i64) = (a as i64, b as i64);
    blend(a - b, 1)
}

/// Half of `a + b - c - d`.
pub open spec fn spec_half_balance(a: Level, b: Level, c: Level, d: Level) -> Level {
    spec_blend(a + b - c - d, 2)
}

/// Half of `a + b - c - d`.
#[verifier::when_used_as_spec(spec_half_balance)]
pub fn half_balance(a: Level, b: Level, c: Level, d: Level) -> (r: Level)
    ensures
        r == spec_half_balance(a, b, c, d),
{
    let (a, b, c, d): (i64, i64, i64, i64) = (a as i64, b as i64, c as i64, d as i64);
    blend(a + b - c - d, 2)
}

/// Half of `a + b`, less `c`.
pub open spec fn spec_mean_less(a: Level, b: Level, c: Level) -> Level {
    spec_blend(a + b - 2 * c, 2)
}

/// Half of `a + b`, less `c`.
#[verifier::when_used_as_spec(spec_mean_less)]
pub fn mean_less(a: Level, b: Level, c: Level) -> (r: Level)
    ensures
        r == spec_mean_less(a, b, c),
{
    let (a, b, c): (i64, i64, i64) = (a as i64, b as i64, c as i64);
    blend(a + b - 2 * c, 2)
}

/// `a + b - c - d`, held between minus one and one.
pub open spec fn spec_balance_clamped(a: Level, b: Level, c: Level, d: Level) -> Level {
    clamp_int(a + b - c - d, -(UNIT as int), UNIT as int) as Level
}

/// `a + b - c - d`, held between minus one and one.
#[verifier::when_used_as_spec(spec_balance_clamped)]
pub fn balance_clamped(a: Level, b: Level, c: Level, d: Level) -> (r: Level)
    ensures
        r == spec_balance_clamped(a, b, c, d),
{
    let (a, b, c, d): (i64, i64, i64, i64) = (a as i64, b as i64, c as i64, d as i64);
    let x: i64 = a + b - c - d;
    if x < -1_000_000 {
        -UNIT
    } else if x > 1_000_000 {
        UNIT
    } else {
        x as i32
    }
}

/// Twice the openness of an eye whose lid is closed by `closed`:
/// openness is `1 - 1.5 * closed`, held between zero and one.
pub open spec fn openness_doubled(closed: Level) -> int {
    clamp_int(2 * UNIT - 3 * closed, 0, 2 * UNIT)
}

/// Eyelid position: three quarters of the openness plus one quarter of `wide`.
pub open spec fn spec_lid_position(closed: Level, wide: Level) -> Level {
    spec_blend(3 * openness_doubled(closed) + 2 * wide, 8)
}

/// Eyelid position: three quarters of the openness plus one quarter of `wide`.
#[verifier::when_used_as_spec(spec_lid_position)]
pub fn lid_position(closed: Level, wide: Level) -> (r: Level)
    ensures
        r == spec_lid_position(closed, wide),
{
    let (closed, wide): (i64, i64) = (closed as i64, wide as i64);
    let raw: i64 = 2_000_000 - 3 * closed;
    let open2: i64 = if raw < 0 {
        0
    } else if raw > 2_000_000 {
        2_000_000
    } else {
        raw
    };
    blend(3 * open2 + 2 * wide, 8)
}

/// The blush level after `delta_t` microseconds: it climbs by a tenth per
/// second while `rising`, falls by a twentieth per second otherwise, and
/// stays between zero and one.
pub open spec fn spec_blush_step(blush: Level, rising: bool, delta_t: u32) -> Level {
    let change = if rising {
        delta_t as int / 10
    } else {
        (-(delta_t as int)) / 20
    };
    clamp_int(blush + change, 0, UNIT as int) as Level
}

/// The blush level after `delta_t` microseconds.
#[verifier::when_used_as_spec(spec_blush_step)]
pub fn blush_step(blush: Level, rising: bool, delta_t: u32) -> (r: Level)
    ensures
        r == spec_blush_step(blush, rising, delta_t),
{
    let change: i64 = if rising {
        div_floor(delta_t as i64, 10)
    } else {
        div_floor(-(delta_t as i64), 20)
    };
    let x: i64 = blush as i64 + change;
    if x < 0 {
        0
    } else if x > 1_000_000 {
        UNIT
    } else {
        x as i32
    }
}

/// `a + b`.
pub open spec fn spec_sum(a: Level, b: Level) -> Level {
    spec_blend(a + b, 1)
}

/// `a + b`.
#[verifier::when_used_as_spec(spec_sum)]
pub fn sum(a: Level, b: Level) -> (r: Level)
    ensures
        r == spec_sum(a, b),
{
    let (a, b): (i64, i64) = (a as i64, b as i64);
    blend(a + b, 1)
}

/// The smaller of `a` and `b`.
pub open spec fn spec_lower(a: Level, b: Level) -> Level {
    if a < b {
        a
    } else {
        b
    }
}

/// The smaller of `a` and `b`.
#[verifier::when_used_as_spec(spec_lower)]
pub fn lower(a: Level, b: Level) -> (r: Level)
    ensures
        r == spec_lower(a, b),
{
    if a < b {
        a
    } else {
        b
    }
}

/// Twice `a`, but no more than one.
pub open spec fn spec_doubled_capped(a: Level) -> Level {
    if 2 * a > UNIT {
        UNIT
    } else {
        spec_blend(2 * a, 1)
    }
}

/// Twice `a`, but no more than one.
#[verifier::when_used_as_spec(spec_doubled_capped)]
pub fn doubled_capped(a: Level) -> (r: Level)
    ensures
        r == spec_doubled_capped(a),
{
    let a: i64 = a as i64;
    if 2 * a > 1_000_000 {
        UNIT
    } else {
        blend(2 * a, 1)
    }
}

} // verus!
