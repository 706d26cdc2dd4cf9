//! Report codec for a DualShock 4 controller.
//!
//! The controller sends fixed-size input reports and accepts fixed-size
//! output reports. This crate decodes the face buttons and the directional
//! pad from an input report and builds the output report that drives the
//! actuator. Every function is verified against a contract stated over the
//! bytes of the report.

pub mod controls;
pub mod encoder;
pub mod laws;
pub mod layout;
pub mod poll;
pub mod report;

pub use controls::{Button, DPad};
pub use encoder::{encode, Command};
pub use layout::{OUTPUT_REPORT_LEN, REPORT_LEN};
pub use poll::{is_supported_device, respond, step};
pub use report::{decode, ControllerState, Report};
