//! Encoding of an output report.

use vstd::prelude::*;
use crate::layout::{
    ACTUATOR_OFF, ACTUATOR_ON, OUTPUT_ACTUATOR_OFFSET, OUTPUT_ID_OFFSET, OUTPUT_REPORT_LEN,
    REPORT_ID, REPORT_LEN,
};

verus! {

/// What the actuator is asked to do.
#[derive(Clone, Copy, Debug, PartialEq, Eq, Structural)]
pub enum Command {
    /// Leave the actuator off.
    Inactive,
    /// Switch the actuator on.
    Activate,
}

impl Command {
    /// The actuator byte that carries this command.
    pub open spec fn actuator_byte(self) -> u8 {
        match self {
            Command::Inactive => ACTUATOR_OFF,
            Command::Activate => ACTUATOR_ON,
        }
    }
}

/// The output report for `command`: the report identifier first, the
/// actuator byte at its offset, zero everywhere else.
pub open spec fn encoded(command: Command) -> Seq<u8> {
    Seq::new(
        OUTPUT_REPORT_LEN as nat,
        |i: int|
            if i == OUTPUT_ID_OFFSET {
                REPORT_ID
            } else if i == OUTPUT_ACTUATOR_OFFSET {
                command.actuator_byte()
            } else {
                0u8
            },
    )
}

/// Builds the output report for `command`. Nothing of an earlier report is
/// kept: every byte but the identifier and the actuator byte is zero.
pub fn encode(command: Command) -> (out: [u8; 65])
    ensures
        out@ == encoded(command),
        out@.len() == REPORT_LEN + 1,
        out@[0] == REPORT_ID,
        out@[10] == command.actuator_byte(),
        forall|i: int| 0 <= i < out@.len() && i != 0 && i != 10 ==> out@[i] == 0,
{
    let mut out: [u8; OUTPUT_REPORT_LEN] = [0u8; OUTPUT_REPORT_LEN];
    out[OUTPUT_ID_OFFSET] = REPORT_ID;
    match command {
        Command::Activate => {
            out[OUTPUT_ACTUATOR_OFFSET] = ACTUATOR_ON;
        },
        Command::Inactive => {},
    }
    out
}

} // verus!
