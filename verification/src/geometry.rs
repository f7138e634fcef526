//! Round cross-sections.
//!
//! Areas are counted in circular units: one unit is the area of a disc one
//! micrometre across, which is π/4 square micrometres. A disc `d`
//! micrometres across then measures `d * d` units exactly, and π enters
//! only where an area is given out in square millimetres.
use vstd::prelude::*;
use crate::rounding::{
    lemma_round_half_up_grows, lemma_round_half_up_shifts, round_half_up, rounded,
};

verus! {

/// The area, in circular units, of a disc `diameter` micrometres across.
pub open spec fn circular_area(diameter: int) -> int {
    diameter * diameter
}

/// The cross-section, in circular units, that a round cable of the given
/// outer diameter in micrometres takes up.
pub fn calculate_cable_area(outer_diameter: u32) -> (r: u64)
    ensures
        r == circular_area(outer_diameter as int),
{
    let d: u64 = outer_diameter as u64;
    assert(d * d <= 0xffff_ffff * 0xffff_ffff) by (nonlinear_arith)
        requires
            d <= 0xffff_ffff,
    ;
    d * d
}

/// π to seventeen decimals, cut off, as a whole number of units of the last
/// decimal: π lies between this and the next whole number.
pub const PI_DIGITS: u128 = 314_159_265_358_979_323;

/// How many units of the last decimal of `PI_DIGITS` make one.
pub const PI_SCALE: u128 = 100_000_000_000_000_000;

/// How many circular units, times π, make one hundredth of a square
/// millimetre: a square millimetre is a million square micrometres, and a
/// circular unit is a quarter of π of one.
pub const UNITS_PER_HUNDREDTH: u128 = 40_000;

/// The largest area, in circular units, that is given out in square
/// millimetres: a thousand square metres and more.
pub const MAX_CIRCULAR: u128 = 1_000_000_000_000_000_000_000;

/// An area in circular units as hundredths of a square millimetre, rounded
/// to the nearest, with π taken to seventeen decimals.
pub open spec fn square_millimetres_of(circular: int) -> int {
    round_half_up(circular * PI_DIGITS, UNITS_PER_HUNDREDTH * PI_SCALE)
}

/// Gives an area in circular units out in hundredths of a square
/// millimetre.
pub fn square_millimetres(circular: u128) -> (r: u128)
    requires
        circular <= MAX_CIRCULAR,
    ensures
        r == square_millimetres_of(circular as int),
{
    assert(circular * PI_DIGITS <= MAX_CIRCULAR * PI_DIGITS) by (nonlinear_arith)
        requires
            circular <= MAX_CIRCULAR,
    ;
    rounded(circular * PI_DIGITS, UNITS_PER_HUNDREDTH * PI_SCALE)
}

/// A larger area is never given out as fewer square millimetres.
pub proof fn lemma_square_millimetres_grow(smaller: int, larger: int)
    requires
        0 <= smaller <= larger,
    ensures
        square_millimetres_of(smaller) <= square_millimetres_of(larger),
{
    lemma_round_half_up_grows(
        smaller * PI_DIGITS,
        larger * PI_DIGITS,
        UNITS_PER_HUNDREDTH * PI_SCALE,
    );
}

/// The decimals of π that are left out matter little: with π taken one unit
/// of the seventeenth decimal higher, which is more than π, no area up to
/// the largest comes out more than one hundredth of a square millimetre
/// higher, and none comes out lower.
pub proof fn lemma_square_millimetres_close(circular: int)
    requires
        0 <= circular <= MAX_CIRCULAR,
    ensures
        square_millimetres_of(circular) <= round_half_up(
            circular * (PI_DIGITS + 1),
            UNITS_PER_HUNDREDTH * PI_SCALE,
        ) <= square_millimetres_of(circular) + 1,
{
    let d = (UNITS_PER_HUNDREDTH * PI_SCALE) as int;
    let low = circular * PI_DIGITS;
    let high = circular * (PI_DIGITS + 1);
    assert(high == low + circular && 0 <= low) by (nonlinear_arith)
        requires
            low == circular * PI_DIGITS,
            high == circular * (PI_DIGITS + 1),
            0 <= circular,
    ;
    lemma_round_half_up_grows(low, high, d);
    lemma_round_half_up_grows(high, low + d, d);
    lemma_round_half_up_shifts(low, d);
}

} // verus!
