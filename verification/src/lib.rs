//! Control core of a two-switch USB foot pedal.
//!
//! The pedal samples a left and a right switch, reports them to the host as
//! keyboard key codes, lets the host rebind the codes through a small command
//! channel and keeps the bindings in a tag-addressed store of 16-bit words.
//!
//! Everything here is pure decision logic on plain values: the firmware reads
//! pins, the bus and the flash, hands the readings to these functions and
//! carries out what they return.

pub mod configure;
pub mod store;
pub mod stateful_key;
pub mod usb_descriptor;
pub mod usb_interface;
pub mod command;
pub mod ticker;
pub mod pedal;
