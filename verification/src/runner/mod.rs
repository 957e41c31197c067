//! Checks that the test runner makes of the firmware's protocols.

pub mod rng;
pub mod usb;
