//! What holds of the codec as a whole, proved over the same spec functions
//! that the contracts of the decoder and the encoder use.

use vstd::prelude::*;
use crate::controls::{Button, DPad};
use crate::encoder::{encoded, Command};
use crate::layout::{
    high_nibble, low_nibble, ACTUATOR_OFF, ACTUATOR_ON, CONTROLS_OFFSET, OUTPUT_REPORT_LEN,
    REPORT_ID, REPORT_LEN,
};
use crate::poll::{response, triggers};
use crate::report::{
    button_held, controls_byte, decoded, dpad_held, dpad_position, ControllerState,
};

verus! {

/// The number that a choice of buttons writes into the button nibble.
pub open spec fn button_nibble(square: bool, cross: bool, circle: bool, triangle: bool) -> int {
    (if square { 1int } else { 0 }) + (if cross { 2int } else { 0 }) + (if circle { 4int } else { 0 })
        + (if triangle { 8int } else { 0 })
}

/// The two nibbles of a byte are its two bit fields: the upper nibble is the
/// byte shifted right by four, the lower nibble the byte masked with `0x0f`,
/// and a button is held where its mask meets the upper nibble.
pub proof fn lemma_nibbles_are_bit_fields(byte: u8, button: Button)
    ensures
        high_nibble(byte) == byte >> 4,
        low_nibble(byte) == byte & 0x0f,
        0 <= high_nibble(byte) < 16,
        0 <= low_nibble(byte) < 16,
        byte == 16 * high_nibble(byte) + low_nibble(byte),
        button.held_in(high_nibble(byte)) <==> (byte >> 4) & (1u8 << (button.bit() as u8)) != 0,
{
    assert(byte >> 4 == byte / 16) by (bit_vector);
    assert(byte & 0x0f == byte % 16) by (bit_vector);
    let high: u8 = byte >> 4;
    assert(high < 16);
    assert((high & (1u8 << 0u8) != 0) == ((high / 1) % 2 == 1)) by (bit_vector);
    assert((high & (1u8 << 1u8) != 0) == ((high / 2) % 2 == 1)) by (bit_vector);
    assert((high & (1u8 << 2u8) != 0) == ((high / 4) % 2 == 1)) by (bit_vector);
    assert((high & (1u8 << 3u8) != 0) == ((high / 8) % 2 == 1)) by (bit_vector);
}

/// Each button has a bit of its own: whatever buttons are chosen and
/// whatever the pad nibble holds, a report whose controls byte is made of
/// the two decodes to exactly the chosen buttons, and to the pad position
/// that the pad nibble stands for.
pub proof fn lemma_buttons_independent(
    bytes: Seq<u8>,
    square: bool,
    cross: bool,
    circle: bool,
    triangle: bool,
    pad: int,
)
    requires
        bytes.len() == REPORT_LEN,
        0 <= pad < 16,
        controls_byte(bytes) == 16 * button_nibble(square, cross, circle, triangle) + pad,
    ensures
        decoded(bytes) == (ControllerState {
            square,
            cross,
            circle,
            triangle,
            dpad: DPad::of_nibble(pad),
        }),
        forall|button: Button|
            decoded(bytes).pressed().contains(button) <==> match button {
                Button::Square => square,
                Button::Cross => cross,
                Button::Circle => circle,
                Button::Triangle => triangle,
            },
{
}

/// The decoded state holds exactly the buttons whose bits are set in the
/// report.
pub proof fn lemma_pressed_is_set_bits(bytes: Seq<u8>, button: Button)
    ensures
        decoded(bytes).pressed().contains(button) <==> button_held(bytes, button),
        decoded(bytes).holds(button) <==> button_held(bytes, button),
{
}

/// The pad table: the nibbles zero to seven stand for the eight directions,
/// each for the one whose code it is, and every other nibble for a pad at
/// rest.
pub proof fn lemma_dpad_table(nibble: int)
    ensures
        0 <= nibble < 8 <==> DPad::of_nibble(nibble) is Some,
        forall|dpad: DPad| DPad::of_nibble(nibble) == Some(dpad) <==> nibble == dpad.code(),
        forall|dpad: DPad| 0 <= #[trigger] dpad.code() < 8,
        DPad::of_nibble(0) == Some(DPad::Up),
        DPad::of_nibble(1) == Some(DPad::UpRight),
        DPad::of_nibble(2) == Some(DPad::Right),
        DPad::of_nibble(3) == Some(DPad::DownRight),
        DPad::of_nibble(4) == Some(DPad::Down),
        DPad::of_nibble(5) == Some(DPad::DownLeft),
        DPad::of_nibble(6) == Some(DPad::Left),
        DPad::of_nibble(7) == Some(DPad::UpLeft),
        8 <= nibble < 16 ==> DPad::of_nibble(nibble) is None,
{
}

/// The directions exclude one another: a report holds the pad in a
/// direction exactly if that is its decoded position, so in at most one;
/// and in none exactly if its pad nibble is eight or more.
pub proof fn lemma_dpad_exclusive(bytes: Seq<u8>, first: DPad, second: DPad)
    ensures
        dpad_held(bytes, first) <==> dpad_position(bytes) == Some(first),
        dpad_held(bytes, first) && dpad_held(bytes, second) ==> first == second,
        dpad_position(bytes) is None <==> low_nibble(controls_byte(bytes)) >= 8,
        dpad_position(bytes) is None <==> forall|dpad: DPad| !dpad_held(bytes, dpad),
{
    assert(dpad_position(bytes) matches Some(dpad) ==> dpad_held(bytes, dpad));
}

/// Decoding reads the controls byte and no other: two reports that agree on
/// it decode to the same state.
pub proof fn lemma_decode_reads_controls_byte_only(first: Seq<u8>, second: Seq<u8>)
    requires
        first[CONTROLS_OFFSET as int] == second[CONTROLS_OFFSET as int],
    ensures
        decoded(first) == decoded(second),
        response(decoded(first)) == response(decoded(second)),
{
}

/// Decoding is a function of the report: equal reports decode to equal
/// states, and are answered alike.
pub proof fn lemma_decode_deterministic(first: [u8; 64], second: [u8; 64])
    requires
        first@ == second@,
    ensures
        decoded(first@) == decoded(second@),
        response(decoded(first@)) == response(decoded(second@)),
{
}

/// Encoding is a function of the command: equal commands give equal
/// reports, and different commands different ones.
pub proof fn lemma_encode_deterministic(first: Command, second: Command)
    ensures
        first == second <==> encoded(first) == encoded(second),
{
    assert(encoded(Command::Activate)[10] != encoded(Command::Inactive)[10]);
}

/// The shape of an output report: one byte longer than an input report, the
/// report identifier first, the actuator byte at offset ten (`0xFF` to
/// switch on, zero to leave off), and zero at every other offset.
pub proof fn lemma_encoded_layout(command: Command)
    ensures
        encoded(command).len() == REPORT_LEN + 1,
        encoded(command).len() == OUTPUT_REPORT_LEN,
        encoded(command)[0] == REPORT_ID,
        encoded(Command::Activate)[10] == ACTUATOR_ON,
        encoded(Command::Inactive)[10] == ACTUATOR_OFF,
        forall|i: int|
            0 <= i < encoded(command).len() && i != 0 && i != 10 ==> encoded(command)[i] == 0,
{
}

/// The loop answers a report exactly if it holds the pad up, and then with
/// the report that switches the actuator on.
pub proof fn lemma_response_on_up(bytes: Seq<u8>)
    ensures
        triggers(decoded(bytes)) <==> low_nibble(controls_byte(bytes)) == 0,
        triggers(decoded(bytes)) <==> dpad_held(bytes, DPad::Up),
        triggers(decoded(bytes)) ==> response(decoded(bytes)) == Some(
            encoded(Command::Activate),
        ),
        !triggers(decoded(bytes)) ==> response(decoded(bytes)) is None,
{
}

} // verus!
