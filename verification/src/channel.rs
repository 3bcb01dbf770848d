//! Channel selectors: one closed set of channel identifiers per device
//! variant, so an out-of-range channel number is unrepresentable rather
//! than a runtime error.

use vstd::prelude::*;

verus! {

/// Channel list for the 8-channel device.
#[derive(Clone, Copy)]
#[allow(missing_docs)]
pub enum Channels8 {
    CH0,
    CH1,
    CH2,
    CH3,
    CH4,
    CH5,
    CH6,
    CH7,
}

/// Channel list for the 4-channel device.
#[derive(Clone, Copy)]
#[allow(missing_docs)]
pub enum Channels4 {
    CH0,
    CH1,
    CH2,
    CH3,
}

impl Channels8 {
    /// The channel's protocol code: its 0-based ordinal.
    pub open spec fn spec_code(self) -> u8 {
        match self {
            Channels8::CH0 => 0,
            Channels8::CH1 => 1,
            Channels8::CH2 => 2,
            Channels8::CH3 => 3,
            Channels8::CH4 => 4,
            Channels8::CH5 => 5,
            Channels8::CH6 => 6,
            Channels8::CH7 => 7,
        }
    }

    /// Returns the wire code for this channel, always below 8.
    pub fn code(self) -> (c: u8)
        ensures
            c == self.spec_code(),
            c < 8,
        no_unwind
    {
        match self {
            Channels8::CH0 => 0,
            Channels8::CH1 => 1,
            Channels8::CH2 => 2,
            Channels8::CH3 => 3,
            Channels8::CH4 => 4,
            Channels8::CH5 => 5,
            Channels8::CH6 => 6,
            Channels8::CH7 => 7,
        }
    }
}

impl Channels4 {
    /// The channel's protocol code: its 0-based ordinal.
    pub open spec fn spec_code(self) -> u8 {
        match self {
            Channels4::CH0 => 0,
            Channels4::CH1 => 1,
            Channels4::CH2 => 2,
            Channels4::CH3 => 3,
        }
    }

    /// Returns the wire code for this channel, always below 4.
    pub fn code(self) -> (c: u8)
        ensures
            c == self.spec_code(),
            c < 4,
        no_unwind
    {
        match self {
            Channels4::CH0 => 0,
            Channels4::CH1 => 1,
            Channels4::CH2 => 2,
            Channels4::CH3 => 3,
        }
    }
}

} // verus!
