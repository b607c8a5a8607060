//! Mapping of physical inputs to report values.
//!
//! An analog channel delivers a raw 12-bit sample; an axis value is the
//! sample scaled down to 8 bits, centered at the electrical midpoint, and
//! negated for axes of inverted polarity. A digital input delivers an
//! active/idle level; the report carries 0 for active and 255 for idle,
//! a fixed polarity choice of this design.

use vstd::prelude::*;

verus! {

/// Declared polarity of an axis: whether the centered value is reported
/// as-is or negated.
#[derive(Clone, Copy, PartialEq, Eq, Structural, Debug)]
pub enum Polarity {
    Direct,
    Inverted,
}

/// Sign factor of a polarity: +1 for direct, -1 for inverted.
pub open spec fn pol_sign(p: Polarity) -> int {
    match p {
        Polarity::Direct => 1,
        Polarity::Inverted => -1,
    }
}

/// Saturation of a mathematical integer into the signed 8-bit range.
pub open spec fn clamp_i8(v: int) -> int {
    if v < -128 {
        -128
    } else if v > 127 {
        127
    } else {
        v
    }
}

/// The axis value a raw analog sample maps to: divide by 16 (integer
/// floor), center at 128, apply the axis polarity, and saturate into the
/// signed 8-bit range. Saturation only acts at the lower boundary of an
/// inverted axis (raw samples below 16 would center to -128, whose negation
/// 128 is not representable); it is the explicit resolution of that
/// boundary, chosen over silent wraparound.
pub open spec fn axis_spec(raw: u16, p: Polarity) -> int {
    clamp_i8(pol_sign(p) * (raw as int / 16 - 128))
}

/// The report value of a digital input: 0 when active, 255 when idle.
pub open spec fn switch_spec(active: bool) -> u8 {
    if active {
        0
    } else {
        255
    }
}

/// Maps a raw analog sample to a signed 8-bit axis value of the given
/// polarity. Total over all of `u16`, though the converter delivers only
/// 12-bit samples: larger values saturate like any other out-of-range
/// result.
pub fn axis_value(raw: u16, polarity: Polarity) -> (v: i8)
    ensures
        v as int == axis_spec(raw, polarity),
{
    let scaled: i32 = (raw / 16) as i32;
    let centered: i32 = scaled - 128;
    let signed: i32 = match polarity {
        Polarity::Direct => centered,
        Polarity::Inverted => -centered,
    };
    if signed < -128 {
        -128
    } else if signed > 127 {
        127
    } else {
        signed as i8
    }
}

/// Maps a digital input level to its report value.
pub fn switch_value(active: bool) -> (v: u8)
    ensures
        v == switch_spec(active),
{
    if active {
        0
    } else {
        255
    }
}

/// Axis mapping law: for a raw sample within the converter's 12-bit range,
/// the axis value is the saturated product of the polarity's sign with the
/// shifted-and-centered sample, `clamp_i8(pol_sign(p) * ((raw >> 4) - 128))`.
pub proof fn lemma_axis_mapping(raw: u16, p: Polarity)
    requires
        raw <= 4095,
    ensures
        axis_spec(raw, p) == clamp_i8(pol_sign(p) * ((raw >> 4) - 128)),
{
    assert(raw >> 4 == raw / 16) by (bit_vector);
}

/// Every axis value lies in the signed 8-bit range.
pub proof fn lemma_axis_in_range(raw: u16, p: Polarity)
    ensures
        -128 <= axis_spec(raw, p) <= 127,
{
}

/// Digital input law: a digital input produces exactly two report values,
/// 0 precisely on the active level and 255 precisely on the idle level;
/// no third value ever appears.
pub proof fn lemma_switch_two_valued(active: bool)
    ensures
        switch_spec(active) == 0 || switch_spec(active) == 255,
        (switch_spec(active) == 0) <==> active,
        (switch_spec(active) == 255) <==> !active,
{
}

} // verus!
