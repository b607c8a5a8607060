//! The joystick input report and its wire image.
//!
//! One report is produced per sampling cycle and handed to the transmit
//! path; it is never mutated after construction. On the wire it is six
//! bytes: the four axis fields in two's complement, then the two button
//! bytes, in declaration order.

use vstd::prelude::*;

verus! {

/// One joystick input report: two 2-axis pointer fields and two button
/// bytes, in the fixed layout the report descriptor declares.
#[derive(Clone, Copy, PartialEq, Eq, Structural, Debug)]
pub struct ControlPanelReport {
    pub x: i8,
    pub y: i8,
    pub x2: i8,
    pub y2: i8,
    pub s1: u8,
    pub s2: u8,
}

/// The unsigned byte that carries a signed 8-bit value on the wire: its
/// two's-complement image.
pub open spec fn byte_of_i8(v: i8) -> u8 {
    if v >= 0 {
        v as u8
    } else {
        (v + 256) as u8
    }
}

/// The wire image of a report: six bytes, fields in declaration order,
/// signed fields in two's complement.
pub open spec fn wire_bytes(r: ControlPanelReport) -> Seq<u8> {
    seq![
        byte_of_i8(r.x),
        byte_of_i8(r.y),
        byte_of_i8(r.x2),
        byte_of_i8(r.y2),
        r.s1,
        r.s2,
    ]
}

/// Encodes a signed 8-bit value as its two's-complement byte.
pub fn encode_i8(v: i8) -> (b: u8)
    ensures
        b == byte_of_i8(v),
{
    if v >= 0 {
        v as u8
    } else {
        ((v as i16) + 256) as u8
    }
}

impl ControlPanelReport {
    /// Serializes the report for the input endpoint: exactly its wire
    /// image, and nothing else.
    pub fn serialize(&self) -> (out: Vec<u8>)
        ensures
            out@ == wire_bytes(*self),
    {
        let mut out: Vec<u8> = Vec::new();
        out.push(encode_i8(self.x));
        out.push(encode_i8(self.y));
        out.push(encode_i8(self.x2));
        out.push(encode_i8(self.y2));
        out.push(self.s1);
        out.push(self.s2);
        proof {
            assert(out@ =~= wire_bytes(*self));
        }
        out
    }
}

} // verus!
