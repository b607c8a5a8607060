//! The HID report descriptor.
//!
//! The joystick function's report layout, fixed at compile time and
//! consumed once by the host at enumeration: one application collection
//! (gamepad) holding two physical pointer collections of two signed 8-bit
//! axes each, then a two-button usage range carried as one byte per button.
//! The descriptor is a sequence of HID short items; each item is a prefix
//! byte — tag, type and data size packed together — followed by its data
//! bytes, low byte first.

use crate::report::encode_i8;
use vstd::prelude::*;

verus! {

// Prefixes of the short items this schema uses; the low two bits of each
// already count its data bytes.
const ITEM_USAGE_PAGE: u8 = 0x05;

const ITEM_USAGE: u8 = 0x09;

const ITEM_USAGE_MIN: u8 = 0x19;

const ITEM_USAGE_MAX: u8 = 0x29;

const ITEM_LOGICAL_MIN: u8 = 0x15;

const ITEM_LOGICAL_MAX: u8 = 0x25;

const ITEM_LOGICAL_MAX_16: u8 = 0x26;

const ITEM_REPORT_SIZE: u8 = 0x75;

const ITEM_REPORT_COUNT: u8 = 0x95;

const ITEM_INPUT: u8 = 0x81;

const ITEM_COLLECTION: u8 = 0xA1;

const ITEM_END_COLLECTION: u8 = 0xC0;

// Usage pages and usages.
const PAGE_GENERIC_DESKTOP: u8 = 0x01;

const PAGE_BUTTON: u8 = 0x09;

const USAGE_POINTER: u8 = 0x01;

const USAGE_GAMEPAD: u8 = 0x05;

const USAGE_X: u8 = 0x30;

const USAGE_Y: u8 = 0x31;

const USAGE_Z: u8 = 0x32;

const USAGE_RZ: u8 = 0x35;

const COLLECTION_PHYSICAL: u8 = 0x00;

const COLLECTION_APPLICATION: u8 = 0x01;

// Input item flags: data, variable, absolute.
const INPUT_DATA_VAR_ABS: u8 = 0x02;

/// Appends a short item carrying no data.
fn emit0(buf: &mut Vec<u8>, prefix: u8)
    ensures
        final(buf)@ == old(buf)@.push(prefix),
{
    buf.push(prefix);
}

/// Appends a short item carrying one data byte.
fn emit1(buf: &mut Vec<u8>, prefix: u8, data: u8)
    ensures
        final(buf)@ == old(buf)@ + seq![prefix, data],
{
    buf.push(prefix);
    buf.push(data);
    proof {
        assert(buf@ =~= old(buf)@ + seq![prefix, data]);
    }
}

/// Appends a short item carrying a 16-bit value, low byte first.
fn emit2(buf: &mut Vec<u8>, prefix: u8, data: u16)
    ensures
        final(buf)@ == old(buf)@ + seq![prefix, (data & 0xFF) as u8, (data >> 8) as u8],
{
    proof {
        assert(data & 0xFF < 256 && data >> 8 < 256) by (bit_vector);
    }
    buf.push(prefix);
    buf.push((data & 0xFF) as u8);
    buf.push((data >> 8) as u8);
    proof {
        assert(buf@ =~= old(buf)@ + seq![prefix, (data & 0xFF) as u8, (data >> 8) as u8]);
    }
}

/// The report descriptor, byte for byte.
pub open spec fn report_descriptor_spec() -> Seq<u8> {
    seq![
        0x05u8, 0x01,  // usage page: generic desktop
        0x09, 0x05,    // usage: gamepad
        0xA1, 0x01,    // collection: application
        0x09, 0x01,    //   usage: pointer
        0xA1, 0x00,    //   collection: physical
        0x09, 0x30,    //     usage: x
        0x09, 0x31,    //     usage: y
        0x15, 0x80,    //     logical minimum: -128
        0x25, 0x7F,    //     logical maximum: 127
        0x75, 0x08,    //     report size: 8 bits
        0x95, 0x02,    //     report count: 2
        0x81, 0x02,    //     input: data, variable, absolute
        0xC0,          //   end collection
        0x09, 0x01,    //   usage: pointer
        0xA1, 0x00,    //   collection: physical
        0x09, 0x32,    //     usage: z
        0x09, 0x35,    //     usage: rz
        0x15, 0x80,    //     logical minimum: -128
        0x25, 0x7F,    //     logical maximum: 127
        0x75, 0x08,    //     report size: 8 bits
        0x95, 0x02,    //     report count: 2
        0x81, 0x02,    //     input: data, variable, absolute
        0xC0,          //   end collection
        0x05, 0x09,    //   usage page: button
        0x19, 0x01,    //   usage minimum: button 1
        0x29, 0x02,    //   usage maximum: button 2
        0x15, 0x00,    //   logical minimum: 0
        0x26, 0xFF, 0x00,  //   logical maximum: 255
        0x75, 0x08,    //   report size: 8 bits
        0x95, 0x02,    //   report count: 2
        0x81, 0x02,    //   input: data, variable, absolute
        0xC0,          // end collection
    ]
}

/// Assembles the report descriptor. The result is byte-exact: precisely
/// the fixed schema, nothing else.
pub fn report_descriptor() -> (d: Vec<u8>)
    ensures
        d@ == report_descriptor_spec(),
{
    let mut d: Vec<u8> = Vec::new();
    emit1(&mut d, ITEM_USAGE_PAGE, PAGE_GENERIC_DESKTOP);
    emit1(&mut d, ITEM_USAGE, USAGE_GAMEPAD);
    emit1(&mut d, ITEM_COLLECTION, COLLECTION_APPLICATION);

    emit1(&mut d, ITEM_USAGE, USAGE_POINTER);
    emit1(&mut d, ITEM_COLLECTION, COLLECTION_PHYSICAL);
    emit1(&mut d, ITEM_USAGE, USAGE_X);
    emit1(&mut d, ITEM_USAGE, USAGE_Y);
    emit1(&mut d, ITEM_LOGICAL_MIN, encode_i8(-128));
    emit1(&mut d, ITEM_LOGICAL_MAX, encode_i8(127));
    emit1(&mut d, ITEM_REPORT_SIZE, 8);
    emit1(&mut d, ITEM_REPORT_COUNT, 2);
    emit1(&mut d, ITEM_INPUT, INPUT_DATA_VAR_ABS);
    emit0(&mut d, ITEM_END_COLLECTION);

    emit1(&mut d, ITEM_USAGE, USAGE_POINTER);
    emit1(&mut d, ITEM_COLLECTION, COLLECTION_PHYSICAL);
    emit1(&mut d, ITEM_USAGE, USAGE_Z);
    emit1(&mut d, ITEM_USAGE, USAGE_RZ);
    emit1(&mut d, ITEM_LOGICAL_MIN, encode_i8(-128));
    emit1(&mut d, ITEM_LOGICAL_MAX, encode_i8(127));
    emit1(&mut d, ITEM_REPORT_SIZE, 8);
    emit1(&mut d, ITEM_REPORT_COUNT, 2);
    emit1(&mut d, ITEM_INPUT, INPUT_DATA_VAR_ABS);
    emit0(&mut d, ITEM_END_COLLECTION);

    emit1(&mut d, ITEM_USAGE_PAGE, PAGE_BUTTON);
    emit1(&mut d, ITEM_USAGE_MIN, 1);
    emit1(&mut d, ITEM_USAGE_MAX, 2);
    emit1(&mut d, ITEM_LOGICAL_MIN, encode_i8(0));
    emit2(&mut d, ITEM_LOGICAL_MAX_16, 255);
    emit1(&mut d, ITEM_REPORT_SIZE, 8);
    emit1(&mut d, ITEM_REPORT_COUNT, 2);
    emit1(&mut d, ITEM_INPUT, INPUT_DATA_VAR_ABS);
    emit0(&mut d, ITEM_END_COLLECTION);
    proof {
        assert(255u16 & 0xFF == 0xFF && 255u16 >> 8 == 0) by (bit_vector);
        assert(d@ =~= report_descriptor_spec());
    }
    d
}

} // verus!
