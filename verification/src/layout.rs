//! Where the fields sit in the two reports, and the bytes that have a fixed
//! meaning on the wire.

use vstd::prelude::*;

verus! {

/// Length of an input report.
pub const REPORT_LEN: usize = 64;

/// An output report starts with this many bytes that an input report does
/// not have (the report identifier), so every payload offset moves by it.
pub const OUTPUT_SHIFT: usize = 1;

/// Length of an output report.
pub const OUTPUT_REPORT_LEN: usize = REPORT_LEN + OUTPUT_SHIFT;

/// Payload offset of the byte that holds the buttons (high nibble) and the
/// directional pad (low nibble).
pub const CONTROLS_OFFSET: usize = 5;

/// Payload offset of the actuator byte.
pub const ACTUATOR_OFFSET: usize = 9;

/// Offset of the report identifier in an output report.
pub const OUTPUT_ID_OFFSET: usize = 0;

/// Offset of the actuator byte in an output report.
pub const OUTPUT_ACTUATOR_OFFSET: usize = ACTUATOR_OFFSET + OUTPUT_SHIFT;

/// The report identifier that opens every output report.
pub const REPORT_ID: u8 = 0x01;

/// Actuator byte that switches the actuator on.
pub const ACTUATOR_ON: u8 = 0xFF;

/// Actuator byte that leaves the actuator off.
pub const ACTUATOR_OFF: u8 = 0x00;

/// USB vendor identifier of the controller.
pub const VENDOR_ID: u16 = 0x054c;

/// USB product identifier of the controller.
pub const PRODUCT_ID: u16 = 0x05c4;

/// The upper four bits of a byte, as a number below 16.
pub open spec fn high_nibble(byte: u8) -> int {
    byte as int / 16
}

/// The lower four bits of a byte, as a number below 16.
pub open spec fn low_nibble(byte: u8) -> int {
    byte as int % 16
}

/// Splits a byte into its upper and lower four bits.
pub fn nibbles(byte: u8) -> (pair: (u8, u8))
    ensures
        pair.0 == high_nibble(byte),
        pair.1 == low_nibble(byte),
{
    let high: u8 = byte >> 4;
    let low: u8 = byte & 0x0f;
    assert(byte >> 4 == byte / 16) by (bit_vector);
    assert(byte & 0x0f == byte % 16) by (bit_vector);
    (high, low)
}

} // verus!
