//! Integer readings of real numbers that are given as binary32 bit patterns
//! of IEEE 754.
//!
//! A pattern holds a sign in its top bit and a magnitude in the 31 bits
//! below; magnitudes above that of infinity are not numbers. The reading of a
//! pattern is its magnitude with its sign, so that the order of the readings
//! is the order of the numbers, and both zeros read 0.

use vstd::prelude::*;

verus! {

/// The pattern of positive infinity: the greatest magnitude of a number.
pub const INFINITY: u32 = 0x7f80_0000;

/// The sign bit of a pattern.
pub const SIGN: u32 = 0x8000_0000;

/// The magnitude of a pattern: the pattern without its sign bit.
pub open spec fn magnitude(pattern: u32) -> int {
    if pattern >= SIGN {
        pattern - SIGN
    } else {
        pattern as int
    }
}

/// Whether a pattern stands for a number, finite or infinite.
pub open spec fn is_number(pattern: u32) -> bool {
    magnitude(pattern) <= INFINITY
}

/// The reading of a pattern: its magnitude, negated where the sign bit is
/// set. What is not a number has no reading.
pub open spec fn spec_reading_of(pattern: u32) -> Option<i32> {
    if !is_number(pattern) {
        None
    } else if pattern >= SIGN {
        Some((-magnitude(pattern)) as i32)
    } else {
        Some(magnitude(pattern) as i32)
    }
}

/// The pattern with the magnitude and the sign of a reading. The reading 0
/// gives the pattern of positive zero.
pub open spec fn spec_pattern_of(reading: i32) -> u32 {
    if reading >= 0 {
        reading as u32
    } else {
        (SIGN + (-reading)) as u32
    }
}

/// Whether a reading is that of some number.
pub open spec fn in_range(reading: i32) -> bool {
    -(INFINITY as int) <= reading <= INFINITY as int
}

/// The reading of a pattern, if the pattern stands for a number.
#[verifier::when_used_as_spec(spec_reading_of)]
pub fn reading_of(pattern: u32) -> (reading: Option<i32>)
    ensures
        reading == spec_reading_of(pattern),
        reading matches Some(r) ==> in_range(r),
{
    if pattern >= SIGN {
        let magnitude: u32 = pattern - SIGN;
        if magnitude > INFINITY {
            None
        } else {
            Some(-(magnitude as i32))
        }
    } else if pattern > INFINITY {
        None
    } else {
        Some(pattern as i32)
    }
}

/// The pattern that a reading stands for. Readings beyond those of the
/// infinities are taken as those of the infinities.
pub fn pattern_of(reading: i32) -> (pattern: u32)
    ensures
        in_range(reading) ==> pattern == spec_pattern_of(reading),
        reading > INFINITY ==> pattern == INFINITY,
        reading < -(INFINITY as int) ==> pattern == SIGN + INFINITY,
        is_number(pattern),
{
    if reading >= 0 {
        if reading as u32 > INFINITY {
            INFINITY
        } else {
            reading as u32
        }
    } else if reading < -0x7f80_0000 {
        SIGN + INFINITY
    } else {
        SIGN + ((-reading) as u32)
    }
}

/// Reading and pattern determine each other: a reading in range is the
/// reading of its pattern, and the pattern of a number is the pattern of its
/// reading, but for negative zero, which reads as zero.
pub proof fn reading_round_trip(pattern: u32, reading: i32)
    ensures
        in_range(reading) ==> spec_reading_of(spec_pattern_of(reading)) == Some(reading),
        is_number(pattern) && pattern != SIGN ==> spec_pattern_of(spec_reading_of(pattern).unwrap())
            == pattern,
        spec_reading_of(SIGN) == Some(0i32),
{
}

/// Readings keep the order of the numbers: of two patterns of numbers with
/// the same sign the one with the greater magnitude reads further from zero,
/// a pattern with the sign bit never reads above one without, and only the
/// two zeros read 0.
pub proof fn reading_keeps_order(a: u32, b: u32)
    requires
        is_number(a),
        is_number(b),
    ensures
        a < SIGN && b < SIGN ==> (spec_reading_of(a).unwrap() < spec_reading_of(b).unwrap() <==> a
            < b),
        a >= SIGN && b >= SIGN ==> (spec_reading_of(a).unwrap() < spec_reading_of(b).unwrap()
            <==> a > b),
        a >= SIGN && b < SIGN ==> spec_reading_of(a).unwrap() <= spec_reading_of(b).unwrap(),
        spec_reading_of(a) == Some(0i32) <==> magnitude(a) == 0,
{
}

} // verus!
