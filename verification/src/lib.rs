//! The logic of a wireless keyboard's firmware that is worth proving.
//!
//! `led` is the visual status: what a small addressable LED strip shows of
//! the device's connectivity, pairing profile and battery. `address` derives
//! the device's radio address from the chip's identifier.
//!
//! The library decides; it never touches hardware. Every operation of the
//! status display returns the commands that the firmware has to perform on
//! the strip driver, the power pin and the timer, in order, and keeps a
//! record of what the strip and the pin were last told.

pub mod address;
pub mod led;
