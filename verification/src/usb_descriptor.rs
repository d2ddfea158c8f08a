//! The keyboard report that the pedal sends to the host.

use vstd::prelude::*;

verus! {

/// A keyboard report: the modifier byte, a reserved byte, the LED byte, six
/// key code slots, and the command and data bytes of the command channel.
/// The pedal drives the modifier and the first two slots only.
#[derive(Clone, Copy, Debug, PartialEq, Eq)]
pub struct CustomKeyboardReport {
    pub modifier: u8,
    pub reserved: u8,
    pub leds: u8,
    pub keycodes: [u8; 6],
    pub command: u8,
    pub data: u8,
}

} // verus!
