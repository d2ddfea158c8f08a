//! One switch of the pedal: the key code it is bound to and whether it is
//! held down.

use vstd::prelude::*;

verus! {

/// The key code that stands for "no key".
pub const NO_KEY: u8 = 0;

/// A switch with its key code.  The switch counts as pressed exactly when
/// its latest reading was active: a single sample decides, there is no
/// timed filter.
#[derive(Clone, Copy, Debug)]
pub struct StatefulKey {
    key: u8,
    is_pressed: bool,
}

impl StatefulKey {
    /// The key code that the switch is bound to.
    pub closed spec fn code(&self) -> u8 {
        self.key
    }

    /// Whether the latest reading was active.
    pub closed spec fn pressed(&self) -> bool {
        self.is_pressed
    }

    /// What the switch contributes to a report: its key code while pressed,
    /// no key while released.
    pub open spec fn output(&self) -> u8 {
        if self.pressed() {
            self.code()
        } else {
            NO_KEY
        }
    }

    /// The switch after one more reading.
    pub closed spec fn after_reading(self, reading: bool) -> StatefulKey {
        StatefulKey { key: self.key, is_pressed: reading }
    }

    /// The switch after the readings of `readings`, taken in order.
    pub open spec fn after_readings(self, readings: Seq<bool>) -> StatefulKey
        decreases readings.len(),
    {
        if readings.len() == 0 {
            self
        } else {
            self.after_readings(readings.drop_last()).after_reading(readings.last())
        }
    }

    /// A released switch bound to `key`.
    pub fn new(key: u8) -> (switch: StatefulKey)
        ensures
            switch.code() == key,
            !switch.pressed(),
    {
        StatefulKey { key, is_pressed: false }
    }

    /// Updates the key code associated with this key
    pub fn replace_keycode(&mut self, keycode: u8)
        ensures
            final(self).code() == keycode,
            final(self).pressed() == old(self).pressed(),
    {
        self.key = keycode;
    }

    /// Returns the key code associated with this key
    pub fn get_code(&self) -> (code: u8)
        ensures
            code == self.code(),
    {
        self.key
    }

    /// Whether the switch is held down, by its latest reading.
    pub fn is_pressed(&self) -> (pressed: bool)
        ensures
            pressed == self.pressed(),
    {
        self.is_pressed
    }

    /// Takes one reading of the switch.
    pub fn update(&mut self, currently_pressed: bool)
        ensures
            *final(self) == old(self).after_reading(currently_pressed),
            final(self).code() == old(self).code(),
            final(self).pressed() == currently_pressed,
    {
        self.is_pressed = currently_pressed;
    }

    /// Takes one reading of the switch and tells whether it changed the
    /// state: `Some` of the new state on the reading that changed it, `None`
    /// on a reading that agrees with the state.
    pub fn requires_update(&mut self, currently_pressed: bool) -> (change: Option<bool>)
        ensures
            *final(self) == old(self).after_reading(currently_pressed),
            final(self).code() == old(self).code(),
            final(self).pressed() == currently_pressed,
            change == (if currently_pressed == old(self).pressed() {
                None
            } else {
                Some(currently_pressed)
            }),
    {
        if currently_pressed == self.is_pressed {
            None
        } else {
            self.is_pressed = currently_pressed;
            Some(self.is_pressed)
        }
    }

    /// The key code to report now: the bound code while the switch is
    /// pressed, no key while it is released.
    pub fn current_keycode(&self) -> (code: u8)
        ensures
            code == self.output(),
    {
        if self.is_pressed {
            self.key
        } else {
            NO_KEY
        }
    }
}

/// One reading sets the state to that reading and keeps the key code.
pub proof fn lemma_after_reading(switch: StatefulKey, reading: bool)
    ensures
        switch.after_reading(reading).code() == switch.code(),
        switch.after_reading(reading).pressed() == reading,
{
}

/// After any sequence of readings that is not empty, the switch reports its
/// key code exactly when the latest reading was active, and no key
/// otherwise.  No reading changes the key code.
pub proof fn lemma_output_follows_latest_reading(switch: StatefulKey, readings: Seq<bool>)
    ensures
        switch.after_readings(readings).code() == switch.code(),
        readings.len() > 0 ==> switch.after_readings(readings).pressed() == readings.last(),
        readings.len() > 0 ==> switch.after_readings(readings).output() == (if readings.last() {
            switch.code()
        } else {
            NO_KEY
        }),
    decreases readings.len(),
{
    if readings.len() > 0 {
        lemma_output_follows_latest_reading(switch, readings.drop_last());
    }
}

} // verus!
