//! The host side of the pedal: which report is due, and what a read of the
//! command channel brought.
//!
//! The bus itself is driven by the firmware.  [`UsbInterface`] remembers the
//! report that went out last and decides when the next one has to go.

use crate::stateful_key::NO_KEY;
use crate::usb_descriptor::CustomKeyboardReport;
use vstd::prelude::*;

verus! {

/// The modifier byte of a report that stands for the shift key.
pub const SHIFT_MODIFIER: u8 = 0x02;

/// Size of the buffer that a command is read into.
pub const COMMAND_BUFFER_SIZE: usize = 64;

/// Why the bus refused a transfer.
#[derive(Clone, Copy, Debug, PartialEq, Eq, Structural)]
pub enum TransportFault {
    /// Nothing to read, or the bus is busy.
    WouldBlock,
    /// The input could not be parsed.
    ParseError,
    /// The data does not fit the buffer.
    BufferOverflow,
    /// More endpoints were asked for than the peripheral has.
    EndpointOverflow,
    /// More packet memory was asked for than the peripheral has.
    EndpointMemoryOverflow,
    /// The endpoint address is not valid or is in use.
    InvalidEndpoint,
    /// The device or its configuration does not support the operation.
    Unsupported,
    /// The operation is not valid in the current state.
    InvalidState,
}

/// Whether the two key codes go out as the shift modifier: the setting is
/// on and both switches report a key.
pub open spec fn stands_for_shift(key1: u8, key2: u8, both_for_shift: bool) -> bool {
    both_for_shift && key1 != NO_KEY && key2 != NO_KEY
}

/// The report for the key codes `key1` of the left and `key2` of the right
/// switch: the shift modifier alone where the two stand for it, else the
/// two codes in the first two slots.  Every other field is zero.
pub open spec fn composed_report(key1: u8, key2: u8, both_for_shift: bool) -> CustomKeyboardReport {
    if stands_for_shift(key1, key2, both_for_shift) {
        CustomKeyboardReport {
            modifier: SHIFT_MODIFIER,
            reserved: 0,
            leds: 0,
            keycodes: [NO_KEY, NO_KEY, 0, 0, 0, 0],
            command: 0,
            data: 0,
        }
    } else {
        CustomKeyboardReport {
            modifier: 0,
            reserved: 0,
            leds: 0,
            keycodes: [key1, key2, 0, 0, 0, 0],
            command: 0,
            data: 0,
        }
    }
}

/// Whether a report has to go out: on a forced refresh always, else when
/// the report for the key codes differs from the one that went out last.
pub open spec fn report_due(
    last: CustomKeyboardReport,
    key1: u8,
    key2: u8,
    both_for_shift: bool,
    force_update: bool,
) -> bool {
    force_update || last != composed_report(key1, key2, both_for_shift)
}

/// The report that went out last, after a call with these arguments.
pub open spec fn report_after(
    last: CustomKeyboardReport,
    key1: u8,
    key2: u8,
    both_for_shift: bool,
    force_update: bool,
) -> CustomKeyboardReport {
    if report_due(last, key1, key2, both_for_shift, force_update) {
        composed_report(key1, key2, both_for_shift)
    } else {
        last
    }
}

/// What a read of the command channel amounts to: the buffer with the
/// number of bytes read, none where nothing was pending, or the fault that
/// ends the run.
pub open spec fn command_read(
    buffer: [u8; 64],
    outcome: Result<usize, TransportFault>,
) -> Result<([u8; 64], usize), TransportFault> {
    match outcome {
        Ok(size) => Ok((buffer, size)),
        Err(TransportFault::WouldBlock) => Ok((buffer, 0usize)),
        Err(fault) => Err(fault),
    }
}

/// What a write of a report to the bus amounts to: whether the bus took
/// the report, or the fault that ends the run.  A write that would block
/// is no fault: the report is lost, and the next forced refresh makes up
/// for it.
pub open spec fn report_write(outcome: Result<usize, TransportFault>) -> Result<
    bool,
    TransportFault,
> {
    match outcome {
        Ok(_) => Ok(true),
        Err(TransportFault::WouldBlock) => Ok(false),
        Err(fault) => Err(fault),
    }
}

/// The report side of the bus.
#[derive(Clone, Copy, Debug)]
pub struct UsbInterface {
    keyboard_report: CustomKeyboardReport,
}

impl UsbInterface {
    /// Only the modifier and the first two slots are ever driven.
    #[verifier::type_invariant]
    spec fn well_formed(&self) -> bool {
        let report = self.keyboard_report;
        &&& report.reserved == 0
        &&& report.leds == 0
        &&& report.command == 0
        &&& report.data == 0
        &&& forall|i: int| 2 <= i < 6 ==> report.keycodes[i] == 0
    }

    /// The report that went out last; the report of no key before any went
    /// out.
    pub closed spec fn last_report(&self) -> CustomKeyboardReport {
        self.keyboard_report
    }

    /// An interface that has sent nothing yet.
    pub fn new() -> (usb: UsbInterface)
        ensures
            usb.last_report() == composed_report(NO_KEY, NO_KEY, false),
    {
        UsbInterface {
            keyboard_report: CustomKeyboardReport {
                modifier: 0,
                reserved: 0,
                leds: 0,
                keycodes: [0, 0, 0, 0, 0, 0],
                command: 0,
                data: 0,
            },
        }
    }

    /// The report that went out last.
    pub fn keyboard_report(&self) -> (report: CustomKeyboardReport)
        ensures
            report == self.last_report(),
    {
        self.keyboard_report
    }

    /// Maps the outcome of a read of the command channel.  A read that
    /// would block means that no command is pending and counts as a read of
    /// no bytes; any other fault is handed on.
    pub fn read_command(buffer: [u8; 64], outcome: Result<usize, TransportFault>) -> (command:
        Result<([u8; 64], usize), TransportFault>)
        ensures
            command == command_read(buffer, outcome),
    {
        match outcome {
            Ok(size) => Ok((buffer, size)),
            Err(TransportFault::WouldBlock) => Ok((buffer, 0)),
            Err(fault) => Err(fault),
        }
    }

    /// Maps the outcome of a write of a report to the bus: whether the bus
    /// took the report.  A write that would block did not, and is no
    /// fault; any other fault is handed on.
    pub fn write_outcome(outcome: Result<usize, TransportFault>) -> (taken: Result<
        bool,
        TransportFault,
    >)
        ensures
            taken == report_write(outcome),
    {
        match outcome {
            Ok(_) => Ok(true),
            Err(TransportFault::WouldBlock) => Ok(false),
            Err(fault) => Err(fault),
        }
    }

    /// Decides whether a report is due for the key codes `key1` of the left
    /// and `key2` of the right switch, and returns the report to send.
    /// The report returned is from then on the one that went out last.
    pub fn send_report(&mut self, key1: u8, key2: u8, both_for_shift: bool, force_update: bool) -> (sent:
        Option<CustomKeyboardReport>)
        ensures
            sent.is_some() == report_due(
                old(self).last_report(),
                key1,
                key2,
                both_for_shift,
                force_update,
            ),
            sent.is_some() ==> sent == Some(composed_report(key1, key2, both_for_shift)),
            final(self).last_report() == report_after(
                old(self).last_report(),
                key1,
                key2,
                both_for_shift,
                force_update,
            ),
    {
        let combine = both_for_shift && key1 != NO_KEY && key2 != NO_KEY;
        let report = if combine {
            CustomKeyboardReport {
                modifier: SHIFT_MODIFIER,
                reserved: 0,
                leds: 0,
                keycodes: [NO_KEY, NO_KEY, 0, 0, 0, 0],
                command: 0,
                data: 0,
            }
        } else {
            CustomKeyboardReport {
                modifier: 0,
                reserved: 0,
                leds: 0,
                keycodes: [key1, key2, 0, 0, 0, 0],
                command: 0,
                data: 0,
            }
        };
        proof {
            use_type_invariant(&*self);
            if self.keyboard_report.modifier == report.modifier && self.keyboard_report.keycodes[0]
                == report.keycodes[0] && self.keyboard_report.keycodes[1] == report.keycodes[1] {
                assert(self.keyboard_report.keycodes =~= report.keycodes);
            }
        }
        if force_update || self.keyboard_report.modifier != report.modifier
            || self.keyboard_report.keycodes[0] != report.keycodes[0]
            || self.keyboard_report.keycodes[1] != report.keycodes[1] {
            self.keyboard_report = report;
            return Some(report);
        }
        None
    }
}

/// Without a forced refresh a report goes out exactly when it differs from
/// the one that went out last, and a second call with the same key codes
/// and the same setting sends nothing, whether or not the first call was
/// forced.
pub proof fn lemma_unforced_repeat_sends_nothing(
    last: CustomKeyboardReport,
    key1: u8,
    key2: u8,
    both_for_shift: bool,
    force_update: bool,
)
    ensures
        report_due(last, key1, key2, both_for_shift, false) == (last != composed_report(
            key1,
            key2,
            both_for_shift,
        )),
        !report_due(
            report_after(last, key1, key2, both_for_shift, force_update),
            key1,
            key2,
            both_for_shift,
            false,
        ),
{
}

/// A forced refresh always sends, also where the report equals the one
/// that went out last.
pub proof fn lemma_forced_refresh_always_sends(
    last: CustomKeyboardReport,
    key1: u8,
    key2: u8,
    both_for_shift: bool,
)
    ensures
        report_due(last, key1, key2, both_for_shift, true),
        report_after(last, key1, key2, both_for_shift, true) == composed_report(
            key1,
            key2,
            both_for_shift,
        ),
{
}

/// Slots two to five of every report are zero, and so are its reserved,
/// LED, command and data bytes.
pub proof fn lemma_composed_report_drives_two_slots(key1: u8, key2: u8, both_for_shift: bool)
    ensures
        ({
            let report = composed_report(key1, key2, both_for_shift);
            &&& report.reserved == 0
            &&& report.leds == 0
            &&& report.command == 0
            &&& report.data == 0
            &&& forall|i: int| 2 <= i < 6 ==> report.keycodes[i] == 0
            &&& !stands_for_shift(key1, key2, both_for_shift) ==> report.modifier == 0
                && report.keycodes[0] == key1 && report.keycodes[1] == key2
            &&& stands_for_shift(key1, key2, both_for_shift) ==> report.modifier == SHIFT_MODIFIER
                && report.keycodes[0] == NO_KEY && report.keycodes[1] == NO_KEY
        }),
{
}

} // verus!
