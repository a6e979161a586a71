//! The four duty cycles of the square-wave channels.

use vstd::prelude::*;

verus! {

/// Share of a period for which a square wave is high.
#[derive(Clone, Copy, Debug, PartialEq, Eq, Structural)]
pub enum Pattern {
    HalfQuarter,
    Quarter,
    Half,
    ThreeQuarters,
}

/// The register code of a duty cycle.
pub open spec fn pattern_code(pattern: Pattern) -> u8 {
    match pattern {
        Pattern::HalfQuarter => 0,
        Pattern::Quarter => 1,
        Pattern::Half => 2,
        Pattern::ThreeQuarters => 3,
    }
}

/// The duty cycle of a register code, if the code is one of the four.
pub open spec fn pattern_of(value: u8) -> Option<Pattern> {
    if value == 0 {
        Some(Pattern::HalfQuarter)
    } else if value == 1 {
        Some(Pattern::Quarter)
    } else if value == 2 {
        Some(Pattern::Half)
    } else if value == 3 {
        Some(Pattern::ThreeQuarters)
    } else {
        None
    }
}

/// Level, 0 or 1, of a square wave at step `position` of the eight steps of
/// its period: high for one, two, four or six of them.
pub open spec fn duty_level(pattern: Pattern, position: u8) -> u8 {
    let high = match pattern {
        Pattern::HalfQuarter => position == 7,
        Pattern::Quarter => position == 0 || position == 7,
        Pattern::Half => position == 0 || 5 <= position <= 7,
        Pattern::ThreeQuarters => 1 <= position <= 6,
    };
    if high {
        1
    } else {
        0
    }
}

pub fn u8_to_pattern(value: u8) -> (r: Option<Pattern>)
    ensures
        r == pattern_of(value),
{
    match value {
        0 => Some(Pattern::HalfQuarter),
        1 => Some(Pattern::Quarter),
        2 => Some(Pattern::Half),
        3 => Some(Pattern::ThreeQuarters),
        _ => None,
    }
}

pub fn pattern_to_u8(pattern: Pattern) -> (r: u8)
    ensures
        r == pattern_code(pattern),
        r <= 3,
{
    match pattern {
        Pattern::HalfQuarter => 0,
        Pattern::Quarter => 1,
        Pattern::Half => 2,
        Pattern::ThreeQuarters => 3,
    }
}

/// The duty cycle held in the top two bits of a register value.
pub fn pattern_from_register(val: u8) -> (r: Pattern)
    ensures
        pattern_of(val / 64) == Some(r),
        pattern_code(r) == val / 64,
{
    match val / 64 {
        0 => Pattern::HalfQuarter,
        1 => Pattern::Quarter,
        2 => Pattern::Half,
        _ => Pattern::ThreeQuarters,
    }
}

pub fn wave_level(pattern: Pattern, position: u8) -> (r: u8)
    ensures
        r == duty_level(pattern, position),
        r <= 1,
{
    let high: bool = match pattern {
        Pattern::HalfQuarter => position == 7,
        Pattern::Quarter => position == 0 || position == 7,
        Pattern::Half => position == 0 || (5 <= position && position <= 7),
        Pattern::ThreeQuarters => 1 <= position && position <= 6,
    };
    if high {
        1
    } else {
        0
    }
}

/// A code and its duty cycle name each other.
pub proof fn pattern_codes_round_trip(pattern: Pattern, value: u8)
    ensures
        pattern_of(pattern_code(pattern)) == Some(pattern),
        pattern_of(value) matches Some(p) ==> pattern_code(p) == value,
        pattern_of(value) is Some <==> value <= 3,
{
}

} // verus!
