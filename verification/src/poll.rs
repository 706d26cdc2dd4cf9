//! The decisions of the polling loop. The loop itself reads from and writes
//! to the device; what it does with a report is decided here.

use vstd::prelude::*;
use crate::controls::DPad;
use crate::encoder::{encode, encoded, Command};
use crate::layout::{PRODUCT_ID, VENDOR_ID};
use crate::report::{decode, decoded, ControllerState};

verus! {

/// Whether a state of the controls calls for the actuator: the pad is held
/// up.
pub open spec fn triggers(state: ControllerState) -> bool {
    state.dpad == Some(DPad::Up)
}

/// The output report that answers an input report: the one that switches
/// the actuator on where the state calls for it, none otherwise.
pub open spec fn response(state: ControllerState) -> Option<Seq<u8>> {
    if triggers(state) {
        Some(encoded(Command::Activate))
    } else {
        None
    }
}

/// Whether a device with these identifiers is the controller.
pub fn is_supported_device(vendor_id: u16, product_id: u16) -> (supported: bool)
    ensures
        supported == (vendor_id == VENDOR_ID && product_id == PRODUCT_ID),
{
    vendor_id == VENDOR_ID && product_id == PRODUCT_ID
}

/// The output report to send for a state of the controls, if any.
pub fn respond(state: &ControllerState) -> (out: Option<[u8; 65]>)
    ensures
        out is Some <==> triggers(*state),
        out matches Some(report) ==> Some(report@) == response(*state),
{
    match state.dpad {
        Some(DPad::Up) => Some(encode(Command::Activate)),
        _ => None,
    }
}

/// One turn of the polling loop: decodes the input report that was read and
/// says which output report to send, if any.
pub fn step(raw: [u8; 64]) -> (turn: (ControllerState, Option<[u8; 65]>))
    ensures
        turn.0 == decoded(raw@),
        turn.1 is Some <==> triggers(decoded(raw@)),
        turn.1 matches Some(report) ==> Some(report@) == response(decoded(raw@)),
{
    let state = decode(raw);
    let out = respond(&state);
    (state, out)
}

} // verus!
