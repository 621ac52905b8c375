//! The capture policy: one flag that says whether what arrives is thrown
//! away. The flag is kept in a settings store as a 32-bit value.

use vstd::prelude::*;

verus! {

/// The settings of the application.
#[derive(Clone, Copy, Debug, PartialEq, Eq, Structural)]
pub struct AppSettings {
    discard_flag: bool,
}

/// What a stored value says of the flag: set unless the value is absent or zero.
pub open spec fn flag_of(stored: Option<u32>) -> bool {
    match stored {
        Some(value) => value != 0,
        None => false,
    }
}

/// The value under which a flag is stored: one when set, zero when not.
pub open spec fn value_of(flag: bool) -> u32 {
    if flag {
        1
    } else {
        0
    }
}

impl View for AppSettings {
    type V = bool;

    closed spec fn view(&self) -> bool {
        self.discard_flag
    }
}

impl AppSettings {
    /// Settings with the flag as given.
    pub fn new(discard_flag: bool) -> (s: AppSettings)
        ensures
            s@ == discard_flag,
    {
        AppSettings { discard_flag }
    }

    /// Settings as the store holds them; `stored` is the value found there,
    /// if there is one.
    pub fn from_stored(stored: Option<u32>) -> (s: AppSettings)
        ensures
            s@ == flag_of(stored),
    {
        let discard_flag = match stored {
            Some(value) => value != 0,
            None => false,
        };
        AppSettings { discard_flag }
    }

    /// The value to write to the store.
    pub fn stored_value(&self) -> (value: u32)
        ensures
            value == value_of(self@),
    {
        if self.discard_flag {
            1
        } else {
            0
        }
    }

    /// Sets the flag.
    pub fn set_discard_flag(&mut self, discard_flag: bool)
        ensures
            final(self)@ == discard_flag,
    {
        self.discard_flag = discard_flag;
    }

    /// Reads the flag.
    pub fn discard_flag(&self) -> (flag: bool)
        ensures
            flag == self@,
    {
        self.discard_flag
    }

    /// Turns the flag over and returns its new value.
    pub fn toggle_discard_flag(&mut self) -> (flag: bool)
        ensures
            flag == !old(self)@,
            final(self)@ == flag,
    {
        self.discard_flag = !self.discard_flag;
        self.discard_flag
    }
}

impl Default for AppSettings {
    /// Settings as they are before anything was stored: the flag is not set.
    fn default() -> (s: AppSettings)
        ensures
            s@ == false,
    {
        AppSettings { discard_flag: false }
    }
}

/// What is written to the store reads back as the same flag.
pub proof fn lemma_stored_flag_reads_back(flag: bool)
    ensures
        flag_of(Some(value_of(flag))) == flag,
{
}

} // verus!
