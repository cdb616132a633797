//! Tone frequencies as exact fractions.
//!
//! A scan line maps a channel value `c` to `1500 + 800 c / 255` hertz, so
//! every frequency of the protocol is a whole number of 255ths of a hertz.

use vstd::prelude::*;

verus! {

/// The denominator that every frequency is held over.
pub const FREQUENCY_DENOMINATOR: u32 = 255;

/// A frequency of `numerator / 255` hertz.
#[derive(Clone, Copy, Debug, PartialEq, Eq, Structural)]
pub struct Frequency {
    pub numerator: u32,
}

/// The frequency of a whole number of hertz.
pub open spec fn hertz(hz: int) -> Frequency {
    Frequency { numerator: (255 * hz) as u32 }
}

/// The frequency that stands for a channel value on a scan line:
/// `1500 + 800 * level / 255` hertz.
pub open spec fn level_frequency(level: int) -> Frequency {
    Frequency { numerator: (255 * 1500 + 800 * level) as u32 }
}

impl Frequency {
    /// The frequency of a whole number of hertz.
    pub fn from_hz(hz: u16) -> (frequency: Frequency)
        ensures
            frequency == hertz(hz as int),
    {
        Frequency { numerator: 255 * (hz as u32) }
    }

    /// The frequency that stands for a channel value on a scan line.
    pub fn from_level(level: u8) -> (frequency: Frequency)
        ensures
            frequency == level_frequency(level as int),
    {
        Frequency { numerator: 255 * 1500 + 800 * (level as u32) }
    }
}

/// A scan line never leaves the band from 1500 Hz to 2300 Hz, and reaches
/// its upper edge only for the channel value 255.
pub proof fn level_frequency_in_band(level: u8)
    ensures
        hertz(1500).numerator <= level_frequency(level as int).numerator <= hertz(2300).numerator,
        level_frequency(level as int) == hertz(2300) <==> level == 255,
        level_frequency(level as int) == hertz(1500) <==> level == 0,
{
}

} // verus!
