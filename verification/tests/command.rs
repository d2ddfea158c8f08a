use pedalrs::command::{
    InboundCommand, RESET_CONFIG_COMMAND, UPDATE_LEFT_KEY_COMMAND, UPDATE_RIGHT_KEY_COMMAND,
    UPDATE_SHIFT_KEY_SETTING_COMMAND,
};
use pedalrs::configure::Configuration;

fn packet(opcode: u8, payload: u8) -> [u8; 64] {
    let mut data = [0u8; 64];
    data[0] = opcode;
    data[1] = payload;
    data
}

#[test]
fn opcodes_have_their_wire_values() {
    assert_eq!(UPDATE_LEFT_KEY_COMMAND, 0x19);
    assert_eq!(UPDATE_RIGHT_KEY_COMMAND, 0x1a);
    assert_eq!(UPDATE_SHIFT_KEY_SETTING_COMMAND, 0x1b);
    assert_eq!(RESET_CONFIG_COMMAND, 0x1c);
}

#[test]
fn empty_read_holds_no_command() {
    assert_eq!(InboundCommand::decode(&packet(0x19, 0x05), 0), None);
    assert_eq!(InboundCommand::decode(&[0u8; 64], 0), None);
}

#[test]
fn command_is_the_first_two_bytes() {
    let mut data = packet(0x19, 0x05);
    data[2] = 0xaa;
    data[63] = 0xbb;
    assert_eq!(
        InboundCommand::decode(&data, 2),
        Some(InboundCommand { opcode: 0x19, payload: 0x05 })
    );
    assert_eq!(
        InboundCommand::decode(&data, 64),
        Some(InboundCommand { opcode: 0x19, payload: 0x05 })
    );
}

#[test]
fn single_byte_read_takes_the_payload_from_the_buffer() {
    assert_eq!(
        InboundCommand::decode(&packet(0x1c, 0x00), 1),
        Some(InboundCommand { opcode: 0x1c, payload: 0x00 })
    );
    assert_eq!(
        InboundCommand::decode(&packet(0x19, 0x07), 1),
        Some(InboundCommand { opcode: 0x19, payload: 0x07 })
    );
}

#[test]
fn known_opcodes_are_recognized() {
    for opcode in 0..=255u8 {
        let command = InboundCommand { opcode, payload: 0 };
        assert_eq!(command.is_recognized(), (0x19..=0x1c).contains(&opcode));
    }
}

#[test]
fn rebind_left_changes_the_left_key_only() {
    let mut config = Configuration::default();
    assert!(InboundCommand { opcode: 0x19, payload: 0x05 }.apply(&mut config));
    assert_eq!(config, Configuration { left_key: 0x05, right_key: 0x08, both_for_shift: true });
}

#[test]
fn rebind_right_changes_the_right_key_only() {
    let mut config = Configuration::default();
    assert!(InboundCommand { opcode: 0x1a, payload: 0x2c }.apply(&mut config));
    assert_eq!(config, Configuration { left_key: 0x14, right_key: 0x2c, both_for_shift: true });
}

#[test]
fn shift_setting_is_off_for_zero_and_on_otherwise() {
    let mut config = Configuration::default();
    assert!(InboundCommand { opcode: 0x1b, payload: 0 }.apply(&mut config));
    assert_eq!(config, Configuration { left_key: 0x14, right_key: 0x08, both_for_shift: false });
    assert!(InboundCommand { opcode: 0x1b, payload: 1 }.apply(&mut config));
    assert!(config.both_for_shift);
    assert!(InboundCommand { opcode: 0x1b, payload: 0 }.apply(&mut config));
    assert!(InboundCommand { opcode: 0x1b, payload: 0xff }.apply(&mut config));
    assert!(config.both_for_shift);
}

#[test]
fn reset_ignores_the_payload() {
    for payload in [0x00u8, 0x01, 0x99, 0xff] {
        let mut config = Configuration { left_key: 0x05, right_key: 0x06, both_for_shift: false };
        assert!(InboundCommand { opcode: 0x1c, payload }.apply(&mut config));
        assert_eq!(config, Configuration::default());
    }
}

#[test]
fn unknown_opcode_changes_nothing() {
    let before = Configuration { left_key: 0x05, right_key: 0x06, both_for_shift: false };
    for opcode in [0x00u8, 0x18, 0x1d, 0xff] {
        let mut config = before;
        assert!(!InboundCommand { opcode, payload: 0x77 }.apply(&mut config));
        assert_eq!(config, before);
    }
}

#[test]
fn key_may_be_rebound_to_no_key() {
    let mut config = Configuration::default();
    assert!(InboundCommand { opcode: 0x19, payload: 0x00 }.apply(&mut config));
    assert_eq!(config.left_key, 0);
}
