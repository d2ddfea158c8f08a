//! The pedal as a whole: what one round of the main loop decides.
//!
//! The firmware runs the loop.  Each round it hands over what it read (a
//! packet of the command channel, the two switches, the force flag) and
//! carries out what comes back: the words to flush to the medium, the
//! report to send.

use crate::command::{
    configuration_after, decoded_command, is_known_opcode, InboundCommand, RESET_CONFIG_COMMAND,
    UPDATE_LEFT_KEY_COMMAND, UPDATE_RIGHT_KEY_COMMAND,
};
use crate::configure::{
    default_configuration, lemma_configuration_round_trip, persisted, stored_configuration,
    Configuration, DEFAULT_KEYBIND_WORD, DEFAULT_SHIFT_WORD, KEYBIND_CONFIG_TAG,
    SHIFT_WHEN_BOTH_PRESSED_CONFIG_TAG,
};
use crate::stateful_key::{StatefulKey, NO_KEY};
use crate::store::ConfigStore;
use crate::usb_descriptor::CustomKeyboardReport;
use crate::usb_interface::{
    composed_report, report_after, report_due, stands_for_shift, UsbInterface,
};
use vstd::prelude::*;

verus! {

/// For how many milliseconds the main loop rests after it sent a report.
pub const REPORT_DELAY_MS: u8 = 5;

/// What the pedal knows: its configuration, whether each switch is held
/// down, and the report that went out last.
pub struct PedalState {
    pub config: Configuration,
    pub left_pressed: bool,
    pub right_pressed: bool,
    pub last_report: CustomKeyboardReport,
}

/// The key code that a switch bound to `code` contributes to a report.
pub open spec fn key_output(code: u8, pressed: bool) -> u8 {
    if pressed {
        code
    } else {
        NO_KEY
    }
}

impl PedalState {
    /// The state of a pedal that starts with `config`: both switches
    /// released, no report sent.
    pub open spec fn initial(config: Configuration) -> PedalState {
        PedalState {
            config,
            left_pressed: false,
            right_pressed: false,
            last_report: composed_report(NO_KEY, NO_KEY, false),
        }
    }

    /// Whether a read of the command channel holds a command that the
    /// pedal accepts.
    pub open spec fn accepts(data: [u8; 64], num_read: usize) -> bool {
        decoded_command(data, num_read) matches Some(command) && is_known_opcode(command.opcode)
    }

    /// The state after a read of the command channel.
    pub open spec fn after_command(self, data: [u8; 64], num_read: usize) -> PedalState {
        match decoded_command(data, num_read) {
            Some(command) => PedalState {
                config: configuration_after(self.config, command),
                ..self
            },
            None => self,
        }
    }

    /// Whether a round with these readings sends a report.
    pub open spec fn sends(self, left_active: bool, right_active: bool, force_update: bool) -> bool {
        report_due(
            self.last_report,
            key_output(self.config.left_key, left_active),
            key_output(self.config.right_key, right_active),
            self.config.both_for_shift,
            force_update,
        )
    }

    /// The report for these readings.
    pub open spec fn report_for(self, left_active: bool, right_active: bool) -> CustomKeyboardReport {
        composed_report(
            key_output(self.config.left_key, left_active),
            key_output(self.config.right_key, right_active),
            self.config.both_for_shift,
        )
    }

    /// The state after a round with these readings.
    pub open spec fn after_poll(
        self,
        left_active: bool,
        right_active: bool,
        force_update: bool,
    ) -> PedalState {
        PedalState {
            config: self.config,
            left_pressed: left_active,
            right_pressed: right_active,
            last_report: report_after(
                self.last_report,
                key_output(self.config.left_key, left_active),
                key_output(self.config.right_key, right_active),
                self.config.both_for_shift,
                force_update,
            ),
        }
    }
}

/// The pedal: its configuration, its two switches and the report side of
/// the bus.
pub struct Pedal {
    config: Configuration,
    key_left: StatefulKey,
    key_right: StatefulKey,
    usb: UsbInterface,
}

impl View for Pedal {
    type V = PedalState;

    closed spec fn view(&self) -> PedalState {
        PedalState {
            config: self.config,
            left_pressed: self.key_left.pressed(),
            right_pressed: self.key_right.pressed(),
            last_report: self.usb.last_report(),
        }
    }
}

impl Pedal {
    /// Each switch is bound to the key code that the configuration gives
    /// it.
    #[verifier::type_invariant]
    spec fn in_step(&self) -> bool {
        &&& self.key_left.code() == self.config.left_key
        &&& self.key_right.code() == self.config.right_key
    }

    /// A pedal that starts with `config`.
    pub fn new(config: Configuration) -> (pedal: Pedal)
        ensures
            pedal@ == PedalState::initial(config),
    {
        Pedal {
            config,
            key_left: StatefulKey::new(config.left_key),
            key_right: StatefulKey::new(config.right_key),
            usb: UsbInterface::new(),
        }
    }

    /// A pedal that starts with the configuration in `store`.
    pub fn boot(store: &ConfigStore) -> (pedal: Pedal)
        ensures
            pedal@ == PedalState::initial(stored_configuration(store@)),
    {
        Pedal::new(Configuration::read(store))
    }

    /// The configuration in force.
    pub fn config(&self) -> (config: Configuration)
        ensures
            config == self@.config,
    {
        self.config
    }

    /// The left switch.
    pub fn key_left(&self) -> (switch: StatefulKey)
        ensures
            switch.code() == self@.config.left_key,
            switch.pressed() == self@.left_pressed,
    {
        proof {
            use_type_invariant(self);
        }
        self.key_left
    }

    /// The right switch.
    pub fn key_right(&self) -> (switch: StatefulKey)
        ensures
            switch.code() == self@.config.right_key,
            switch.pressed() == self@.right_pressed,
    {
        proof {
            use_type_invariant(self);
        }
        self.key_right
    }

    /// The report that went out last.
    pub fn last_report(&self) -> (report: CustomKeyboardReport)
        ensures
            report == self@.last_report,
    {
        self.usb.keyboard_report()
    }

    /// Takes a read of the command channel: `num_read` bytes in `data`.
    /// A command with a known opcode is accepted: it changes the
    /// configuration, rebinds the switches and writes the whole
    /// configuration to `store`, for the firmware to flush.  A read of no
    /// bytes or a command with an unknown opcode changes nothing.
    pub fn handle_command(&mut self, data: &[u8; 64], num_read: usize, store: &mut ConfigStore) -> (accepted:
        bool)
        ensures
            accepted == PedalState::accepts(*data, num_read),
            final(self)@ == old(self)@.after_command(*data, num_read),
            final(store)@ == (if accepted {
                persisted(old(store)@, final(self)@.config)
            } else {
                old(store)@
            }),
    {
        proof {
            use_type_invariant(&*self);
        }
        match InboundCommand::decode(data, num_read) {
            Some(command) => {
                let mut config = self.config;
                if command.apply(&mut config) {
                    config.write(store);
                    let mut key_left = self.key_left;
                    let mut key_right = self.key_right;
                    key_left.replace_keycode(config.left_key);
                    key_right.replace_keycode(config.right_key);
                    *self = Pedal { config, key_left, key_right, usb: self.usb };
                    true
                } else {
                    false
                }
            },
            None => false,
        }
    }

    /// One round of the main loop after the command channel was served:
    /// takes the reading of each switch and decides whether a report is
    /// due.  The report returned is to be sent, and the loop then rests for
    /// [`REPORT_DELAY_MS`] milliseconds.
    pub fn poll(&mut self, left_active: bool, right_active: bool, force_update: bool) -> (sent: Option<
        CustomKeyboardReport,
    >)
        ensures
            final(self)@ == old(self)@.after_poll(left_active, right_active, force_update),
            sent == (if old(self)@.sends(left_active, right_active, force_update) {
                Some(old(self)@.report_for(left_active, right_active))
            } else {
                None
            }),
    {
        proof {
            use_type_invariant(&*self);
        }
        let mut key_left = self.key_left;
        let mut key_right = self.key_right;
        let mut usb = self.usb;
        key_left.update(left_active);
        key_right.update(right_active);
        let sent = usb.send_report(
            key_left.current_keycode(),
            key_right.current_keycode(),
            self.config.both_for_shift,
            force_update,
        );
        *self = Pedal { config: self.config, key_left, key_right, usb };
        sent
    }
}

/// A reset command puts the default configuration back, whatever the
/// configuration and the payload were, and the words written for it are the
/// default words: a boot from that store gives the default configuration.
pub proof fn lemma_reset_restores_defaults(
    state: PedalState,
    data: [u8; 64],
    num_read: usize,
    words: Map<u16, u16>,
)
    requires
        num_read > 0,
        data[0] == RESET_CONFIG_COMMAND,
    ensures
        PedalState::accepts(data, num_read),
        state.after_command(data, num_read).config == default_configuration(),
        persisted(words, default_configuration())[KEYBIND_CONFIG_TAG] == DEFAULT_KEYBIND_WORD,
        persisted(words, default_configuration())[SHIFT_WHEN_BOTH_PRESSED_CONFIG_TAG]
            == DEFAULT_SHIFT_WORD,
        stored_configuration(persisted(words, default_configuration()))
            == default_configuration(),
{
    lemma_configuration_round_trip(words, default_configuration());
}

/// What an accepted command wrote is what the next boot reads: the
/// configuration in force survives a power cycle.
pub proof fn lemma_accepted_command_survives_reboot(
    state: PedalState,
    data: [u8; 64],
    num_read: usize,
    words: Map<u16, u16>,
)
    requires
        PedalState::accepts(data, num_read),
    ensures
        stored_configuration(persisted(words, state.after_command(data, num_read).config))
            == state.after_command(data, num_read).config,
{
    lemma_configuration_round_trip(words, state.after_command(data, num_read).config);
}

/// After a command that rebinds the left switch, the report for a round in
/// which that switch is held down carries the new code in slot 0, unless
/// the two switches stand for shift in that round.
pub proof fn lemma_rebound_left_key_is_reported(
    state: PedalState,
    data: [u8; 64],
    num_read: usize,
    right_active: bool,
)
    requires
        num_read > 0,
        data[0] == UPDATE_LEFT_KEY_COMMAND,
    ensures
        ({
            let rebound = state.after_command(data, num_read);
            let shift = stands_for_shift(
                data[1],
                key_output(state.config.right_key, right_active),
                state.config.both_for_shift,
            );
            &&& PedalState::accepts(data, num_read)
            &&& rebound.config == Configuration { left_key: data[1], ..state.config }
            &&& !shift ==> rebound.report_for(true, right_active).keycodes[0] == data[1]
            &&& !right_active ==> !shift
        }),
{
}

/// After a command that rebinds the right switch, the report for a round
/// in which that switch is held down carries the new code in slot 1,
/// unless the two switches stand for shift in that round.
pub proof fn lemma_rebound_right_key_is_reported(
    state: PedalState,
    data: [u8; 64],
    num_read: usize,
    left_active: bool,
)
    requires
        num_read > 0,
        data[0] == UPDATE_RIGHT_KEY_COMMAND,
    ensures
        ({
            let rebound = state.after_command(data, num_read);
            let shift = stands_for_shift(
                key_output(state.config.left_key, left_active),
                data[1],
                state.config.both_for_shift,
            );
            &&& PedalState::accepts(data, num_read)
            &&& rebound.config == Configuration { right_key: data[1], ..state.config }
            &&& !shift ==> rebound.report_for(left_active, true).keycodes[1] == data[1]
            &&& !left_active ==> !shift
        }),
{
}

/// While nothing changes the pedal is silent: a round with the readings of
/// the round before sends nothing unless it is forced, and a forced round
/// sends the report of the round before again.
pub proof fn lemma_idle_pedal_is_silent(
    state: PedalState,
    left_active: bool,
    right_active: bool,
    force_update: bool,
)
    ensures
        ({
            let idle = state.after_poll(left_active, right_active, force_update);
            &&& idle.last_report == state.report_for(left_active, right_active)
            &&& !idle.sends(left_active, right_active, false)
            &&& idle.after_poll(left_active, right_active, false) == idle
            &&& idle.sends(left_active, right_active, true)
            &&& idle.report_for(left_active, right_active) == idle.last_report
            &&& idle.after_poll(left_active, right_active, true) == idle
        }),
{
}

} // verus!
