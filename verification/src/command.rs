//! The command channel: what the host can ask of the pedal.

use crate::configure::{default_configuration, Configuration, DEFAULT_LEFT_KEY, DEFAULT_RIGHT_KEY};
use vstd::prelude::*;

verus! {

/// Binds the left switch to the key code in the payload.
pub const UPDATE_LEFT_KEY_COMMAND: u8 = 0x19;

/// Binds the right switch to the key code in the payload.
pub const UPDATE_RIGHT_KEY_COMMAND: u8 = 0x1A;

/// Sets whether both switches together stand for shift: payload zero is
/// off, any other payload is on.
pub const UPDATE_SHIFT_KEY_SETTING_COMMAND: u8 = 0x1B;

/// Puts the default configuration back.  The payload is ignored.
pub const RESET_CONFIG_COMMAND: u8 = 0x1C;

/// A command as the host sent it: the first two bytes of the packet.
#[derive(Clone, Copy, Debug, PartialEq, Eq, Structural)]
pub struct InboundCommand {
    pub opcode: u8,
    pub payload: u8,
}

/// Whether `opcode` is one of the four commands.
pub open spec fn is_known_opcode(opcode: u8) -> bool {
    opcode == UPDATE_LEFT_KEY_COMMAND || opcode == UPDATE_RIGHT_KEY_COMMAND || opcode
        == UPDATE_SHIFT_KEY_SETTING_COMMAND || opcode == RESET_CONFIG_COMMAND
}

/// The command in a read of `num_read` bytes into `data`: none where
/// nothing was read, else the first two bytes of the buffer.
pub open spec fn decoded_command(data: [u8; 64], num_read: usize) -> Option<InboundCommand> {
    if num_read > 0 {
        Some(InboundCommand { opcode: data[0], payload: data[1] })
    } else {
        None
    }
}

/// The configuration after `command`.  A command with an unknown opcode
/// leaves it as it is.
pub open spec fn configuration_after(config: Configuration, command: InboundCommand) -> Configuration {
    if command.opcode == UPDATE_LEFT_KEY_COMMAND {
        Configuration { left_key: command.payload, ..config }
    } else if command.opcode == UPDATE_RIGHT_KEY_COMMAND {
        Configuration { right_key: command.payload, ..config }
    } else if command.opcode == UPDATE_SHIFT_KEY_SETTING_COMMAND {
        Configuration { both_for_shift: command.payload > 0, ..config }
    } else if command.opcode == RESET_CONFIG_COMMAND {
        default_configuration()
    } else {
        config
    }
}

impl InboundCommand {
    /// Takes the command out of a read of the command channel.  A read of
    /// no bytes holds no command.  The payload is the second byte of the
    /// buffer, also where a single byte was read.
    pub fn decode(data: &[u8; 64], num_read: usize) -> (command: Option<InboundCommand>)
        ensures
            command == decoded_command(*data, num_read),
    {
        if num_read > 0 {
            Some(InboundCommand { opcode: data[0], payload: data[1] })
        } else {
            None
        }
    }

    /// Whether the opcode is one of the four commands.
    pub fn is_recognized(&self) -> (known: bool)
        ensures
            known == is_known_opcode(self.opcode),
    {
        self.opcode == UPDATE_LEFT_KEY_COMMAND || self.opcode == UPDATE_RIGHT_KEY_COMMAND
            || self.opcode == UPDATE_SHIFT_KEY_SETTING_COMMAND || self.opcode
            == RESET_CONFIG_COMMAND
    }

    /// Carries the command out on `config` and tells whether it was
    /// accepted.  A command with an unknown opcode is not, and changes
    /// nothing.
    pub fn apply(&self, config: &mut Configuration) -> (accepted: bool)
        ensures
            accepted == is_known_opcode(self.opcode),
            *final(config) == configuration_after(*old(config), *self),
    {
        if self.opcode == UPDATE_LEFT_KEY_COMMAND {
            config.left_key = self.payload;
            true
        } else if self.opcode == UPDATE_RIGHT_KEY_COMMAND {
            config.right_key = self.payload;
            true
        } else if self.opcode == UPDATE_SHIFT_KEY_SETTING_COMMAND {
            config.both_for_shift = self.payload > 0;
            true
        } else if self.opcode == RESET_CONFIG_COMMAND {
            config.left_key = DEFAULT_LEFT_KEY;
            config.right_key = DEFAULT_RIGHT_KEY;
            config.both_for_shift = true;
            true
        } else {
            false
        }
    }
}

} // verus!
