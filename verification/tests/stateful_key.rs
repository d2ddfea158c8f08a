use pedalrs::stateful_key::{StatefulKey, NO_KEY};

#[test]
fn new_key_is_released() {
    let key = StatefulKey::new(0x14);
    assert_eq!(key.get_code(), 0x14);
    assert!(!key.is_pressed());
    assert_eq!(key.current_keycode(), NO_KEY);
    assert_eq!(NO_KEY, 0);
}

#[test]
fn output_follows_the_latest_reading() {
    let mut key = StatefulKey::new(0x14);
    let readings = [true, true, false, true, false, false, true];
    for reading in readings {
        key.update(reading);
        assert_eq!(key.is_pressed(), reading);
        assert_eq!(key.current_keycode(), if reading { 0x14 } else { 0 });
        assert_eq!(key.get_code(), 0x14);
    }
}

#[test]
fn requires_update_reports_edges_only() {
    let mut key = StatefulKey::new(0x08);
    assert_eq!(key.requires_update(false), None);
    assert_eq!(key.requires_update(true), Some(true));
    assert!(key.is_pressed());
    assert_eq!(key.requires_update(true), None);
    assert!(key.is_pressed());
    assert_eq!(key.requires_update(false), Some(false));
    assert!(!key.is_pressed());
    assert_eq!(key.requires_update(false), None);
    assert_eq!(key.get_code(), 0x08);
}

#[test]
fn both_ways_of_reading_agree_on_the_state() {
    let readings = [false, true, true, false, true];
    let mut level = StatefulKey::new(0x2c);
    let mut edge = StatefulKey::new(0x2c);
    for reading in readings {
        level.update(reading);
        edge.requires_update(reading);
        assert_eq!(level.is_pressed(), edge.is_pressed());
        assert_eq!(level.current_keycode(), edge.current_keycode());
    }
}

#[test]
fn replace_keycode_keeps_the_state() {
    let mut key = StatefulKey::new(0x14);
    key.update(true);
    key.replace_keycode(0x05);
    assert_eq!(key.get_code(), 0x05);
    assert!(key.is_pressed());
    assert_eq!(key.current_keycode(), 0x05);
    key.update(false);
    key.replace_keycode(0x06);
    assert!(!key.is_pressed());
    assert_eq!(key.current_keycode(), 0);
}

#[test]
fn key_bound_to_no_key_reports_nothing() {
    let mut key = StatefulKey::new(NO_KEY);
    key.update(true);
    assert!(key.is_pressed());
    assert_eq!(key.current_keycode(), 0);
}
