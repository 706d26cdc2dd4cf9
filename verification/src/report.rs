//! Decoding of an input report.

use vstd::prelude::*;
use crate::controls::{Button, DPad};
use crate::layout::{high_nibble, low_nibble, nibbles, CONTROLS_OFFSET, REPORT_LEN};

verus! {

/// The controls byte of an input report.
pub open spec fn controls_byte(bytes: Seq<u8>) -> u8
    recommends
        bytes.len() == REPORT_LEN,
{
    bytes[CONTROLS_OFFSET as int]
}

/// Whether the report says that `button` is held: its bit in the upper
/// nibble of the controls byte is set.
pub open spec fn button_held(bytes: Seq<u8>, button: Button) -> bool {
    button.held_in(high_nibble(controls_byte(bytes)))
}

/// Whether the report says that the pad is held in direction `dpad`: the
/// lower nibble of the controls byte is that direction's code.
pub open spec fn dpad_held(bytes: Seq<u8>, dpad: DPad) -> bool {
    low_nibble(controls_byte(bytes)) == dpad.code()
}

/// The direction in which the report says the pad is held, `None` for a pad
/// at rest.
pub open spec fn dpad_position(bytes: Seq<u8>) -> Option<DPad> {
    DPad::of_nibble(low_nibble(controls_byte(bytes)))
}

/// What an input report says of the controls, as a value.
pub open spec fn decoded(bytes: Seq<u8>) -> ControllerState {
    ControllerState {
        square: button_held(bytes, Button::Square),
        cross: button_held(bytes, Button::Cross),
        circle: button_held(bytes, Button::Circle),
        triangle: button_held(bytes, Button::Triangle),
        dpad: dpad_position(bytes),
    }
}

/// The state of the controls at one moment: which face buttons are held, and
/// where the directional pad stands (`None`: at rest).
#[derive(Clone, Copy, Debug, PartialEq, Eq)]
pub struct ControllerState {
    pub square: bool,
    pub cross: bool,
    pub circle: bool,
    pub triangle: bool,
    pub dpad: Option<DPad>,
}

impl ControllerState {
    /// Whether `button` is held in this state.
    pub open spec fn holds(self, button: Button) -> bool {
        match button {
            Button::Square => self.square,
            Button::Cross => self.cross,
            Button::Circle => self.circle,
            Button::Triangle => self.triangle,
        }
    }

    /// The set of buttons held in this state.
    pub open spec fn pressed(self) -> Set<Button> {
        Set::new(|button: Button| self.holds(button))
    }

    /// Whether `button` is held in this state.
    pub fn is_button_pressed(&self, button: Button) -> (held: bool)
        ensures
            held == self.holds(button),
    {
        match button {
            Button::Square => self.square,
            Button::Cross => self.cross,
            Button::Circle => self.circle,
            Button::Triangle => self.triangle,
        }
    }

    /// Whether the pad is held in direction `dpad` in this state.
    pub fn is_dpad_pressed(&self, dpad: DPad) -> (held: bool)
        ensures
            held == (self.dpad == Some(dpad)),
    {
        match self.dpad {
            Some(position) => position == dpad,
            None => false,
        }
    }
}

/// An input report as the controller sent it.
#[derive(Clone, Copy, Debug)]
pub struct Report {
    data: [u8; REPORT_LEN],
}

impl View for Report {
    type V = Seq<u8>;

    closed spec fn view(&self) -> Seq<u8> {
        self.data@
    }
}

impl Report {
    /// Every report has the one length.
    pub proof fn lemma_len(self)
        ensures
            self@.len() == REPORT_LEN,
    {
    }

    /// Takes the bytes of one input report.
    pub fn from_bytes(data: [u8; 64]) -> (report: Self)
        ensures
            report@ == data@,
            report@.len() == REPORT_LEN,
    {
        Self { data }
    }

    /// Whether `button` is held.
    pub fn is_button_pressed(&self, button: Button) -> (held: bool)
        ensures
            held == button_held(self@, button),
    {
        let (buttons, _) = nibbles(self.data[CONTROLS_OFFSET]);
        let mask: u8 = button.mask();
        assert((buttons & mask != 0) == ((buttons / mask) % 2 == 1)) by (bit_vector)
            requires
                buttons < 16,
                mask == 1 || mask == 2 || mask == 4 || mask == 8,
        ;
        buttons & mask != 0
    }

    /// Whether the pad is held in direction `dpad`.
    pub fn is_dpad_pressed(&self, dpad: DPad) -> (held: bool)
        ensures
            held == dpad_held(self@, dpad),
    {
        let (_, pad) = nibbles(self.data[CONTROLS_OFFSET]);
        pad == dpad.nibble()
    }

    /// The direction in which the pad is held, `None` for a pad at rest.
    pub fn dpad(&self) -> (position: Option<DPad>)
        ensures
            position == dpad_position(self@),
    {
        let (_, pad) = nibbles(self.data[CONTROLS_OFFSET]);
        DPad::from_nibble(pad)
    }

    /// The state of the controls that the report describes.
    pub fn state(&self) -> (state: ControllerState)
        ensures
            state == decoded(self@),
    {
        ControllerState {
            square: self.is_button_pressed(Button::Square),
            cross: self.is_button_pressed(Button::Cross),
            circle: self.is_button_pressed(Button::Circle),
            triangle: self.is_button_pressed(Button::Triangle),
            dpad: self.dpad(),
        }
    }
}

/// Decodes one input report: the buttons from the upper nibble of the
/// controls byte, the pad from its lower nibble. No other byte is read.
pub fn decode(raw: [u8; 64]) -> (state: ControllerState)
    ensures
        state == decoded(raw@),
        forall|button: Button| state.pressed().contains(button) <==> button_held(raw@, button),
{
    Report::from_bytes(raw).state()
}

} // verus!
