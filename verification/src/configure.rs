//! The device configuration and its packing into 16-bit store words.

use crate::store::{word_or, ConfigStore};
use vstd::prelude::*;

verus! {

/// Tag of the store word that holds the two key codes.
pub const KEYBIND_CONFIG_TAG: u16 = 0x01;

/// Tag of the store word that holds the shift setting.
pub const SHIFT_WHEN_BOTH_PRESSED_CONFIG_TAG: u16 = 0x02;

/// Key code of the left switch on a device that was never configured.
pub const DEFAULT_LEFT_KEY: u8 = 0x14;

/// Key code of the right switch on a device that was never configured.
pub const DEFAULT_RIGHT_KEY: u8 = 0x08;

/// The key code word of a device that was never configured.
pub const DEFAULT_KEYBIND_WORD: u16 = 0x1408;

/// The shift setting word of a device that was never configured.
pub const DEFAULT_SHIFT_WORD: u16 = 0x0100;

/// What the host can configure: the key code of each switch, and whether
/// both switches pressed together stand for the shift modifier.
#[derive(Clone, Copy, Debug, PartialEq, Eq, Structural)]
pub struct Configuration {
    pub left_key: u8,
    pub right_key: u8,
    pub both_for_shift: bool,
}

/// The word whose high byte is `a` and whose low byte is `b`.
pub open spec fn pack_bytes(a: u8, b: u8) -> u16 {
    (a as int * 256 + b as int) as u16
}

/// The high byte of `data`.
pub open spec fn high_byte(data: u16) -> u8 {
    (data as int / 256) as u8
}

/// The low byte of `data`.
pub open spec fn low_byte(data: u16) -> u8 {
    (data as int % 256) as u8
}

/// Packs two bytes into one word, `a` in the high byte and `b` in the low one.
pub fn keys_to_bytes(a: u8, b: u8) -> (word: u16)
    ensures
        word == pack_bytes(a, b),
        word as int == a as int * 256 + b as int,
{
    let word: u16 = ((a as u16) << 8) | (b as u16);
    assert(((a as u16) << 8) | (b as u16) == (a as u16) * 256 + (b as u16)) by (bit_vector);
    word
}

/// Splits a word into its high and its low byte.
pub fn bytes_to_keys(data: u16) -> (keys: (u8, u8))
    ensures
        keys.0 == high_byte(data),
        keys.1 == low_byte(data),
{
    let high: u16 = data >> 8;
    let low: u16 = data & 0xff;
    assert(data >> 8 == data / 256) by (bit_vector);
    assert(data & 0xff == data % 256) by (bit_vector);
    (high as u8, low as u8)
}

/// The configuration of a device that was never configured.
pub open spec fn default_configuration() -> Configuration {
    Configuration {
        left_key: DEFAULT_LEFT_KEY,
        right_key: DEFAULT_RIGHT_KEY,
        both_for_shift: true,
    }
}

/// The store word for the key codes of `config`: left code in the high
/// byte, right code in the low byte.
pub open spec fn keybind_word(config: Configuration) -> u16 {
    pack_bytes(config.left_key, config.right_key)
}

/// The store word for the shift setting of `config`: the flag in the high
/// byte, the low byte clear.
pub open spec fn shift_word(config: Configuration) -> u16 {
    pack_bytes(
        if config.both_for_shift {
            1u8
        } else {
            0u8
        },
        0u8,
    )
}

/// The configuration that the two store words encode.
pub open spec fn decode_configuration(keybind: u16, shift: u16) -> Configuration {
    Configuration {
        left_key: high_byte(keybind),
        right_key: low_byte(keybind),
        both_for_shift: high_byte(shift) > 0,
    }
}

/// The configuration that a store with the words `words` gives: each word
/// that is missing counts as its default.
pub open spec fn stored_configuration(words: Map<u16, u16>) -> Configuration {
    decode_configuration(
        word_or(words, KEYBIND_CONFIG_TAG, DEFAULT_KEYBIND_WORD),
        word_or(words, SHIFT_WHEN_BOTH_PRESSED_CONFIG_TAG, DEFAULT_SHIFT_WORD),
    )
}

/// The words of a store after `config` was written to it.
pub open spec fn persisted(words: Map<u16, u16>, config: Configuration) -> Map<u16, u16> {
    words.insert(KEYBIND_CONFIG_TAG, keybind_word(config)).insert(
        SHIFT_WHEN_BOTH_PRESSED_CONFIG_TAG,
        shift_word(config),
    )
}

impl Default for Configuration {
    fn default() -> (config: Self)
        ensures
            config == default_configuration(),
    {
        Configuration {
            left_key: DEFAULT_LEFT_KEY,
            right_key: DEFAULT_RIGHT_KEY,
            both_for_shift: true,
        }
    }
}

impl Configuration {
    /// Reads the configuration from the store.  A word that the store does
    /// not hold counts as its default, so an empty store gives the default
    /// configuration.
    pub fn read(store: &ConfigStore) -> (config: Self)
        ensures
            config == stored_configuration(store@),
    {
        let keys = bytes_to_keys(store.read(KEYBIND_CONFIG_TAG, DEFAULT_KEYBIND_WORD));
        let shift = bytes_to_keys(
            store.read(SHIFT_WHEN_BOTH_PRESSED_CONFIG_TAG, DEFAULT_SHIFT_WORD),
        );
        Configuration { left_key: keys.0, right_key: keys.1, both_for_shift: shift.0 > 0 }
    }

    /// Writes the configuration to the store: both words, whatever the
    /// store held.  The configuration itself stays as it is.
    pub fn write(&mut self, store: &mut ConfigStore)
        ensures
            *final(self) == *old(self),
            final(store)@ == persisted(old(store)@, *old(self)),
    {
        // Neither tag is reserved, so the store takes both words.
        let page1 = keys_to_bytes(self.left_key, self.right_key);
        let _ = store.write(KEYBIND_CONFIG_TAG, page1);
        let flag: u8 = if self.both_for_shift {
            0x01u8
        } else {
            0u8
        };
        let page2 = keys_to_bytes(flag, 0u8);
        let _ = store.write(SHIFT_WHEN_BOTH_PRESSED_CONFIG_TAG, page2);
    }
}

/// Packing two bytes and splitting the word gives the two bytes back, and
/// splitting a word and packing its bytes gives the word back.
pub proof fn lemma_pack_round_trip(a: u8, b: u8, data: u16)
    ensures
        high_byte(pack_bytes(a, b)) == a,
        low_byte(pack_bytes(a, b)) == b,
        pack_bytes(high_byte(data), low_byte(data)) == data,
{
}

/// A configuration written to a store is the configuration read from it,
/// whatever the store held before.
pub proof fn lemma_configuration_round_trip(words: Map<u16, u16>, config: Configuration)
    ensures
        stored_configuration(persisted(words, config)) == config,
{
    lemma_pack_round_trip(config.left_key, config.right_key, 0);
    lemma_pack_round_trip(
        if config.both_for_shift {
            1u8
        } else {
            0u8
        },
        0u8,
        0,
    );
}

/// A store that holds neither word gives the default configuration.
pub proof fn lemma_empty_store_gives_default(words: Map<u16, u16>)
    requires
        !words.contains_key(KEYBIND_CONFIG_TAG),
        !words.contains_key(SHIFT_WHEN_BOTH_PRESSED_CONFIG_TAG),
    ensures
        stored_configuration(words) == default_configuration(),
{
}

} // verus!
