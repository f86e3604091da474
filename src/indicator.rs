//! The two-colour status lamp.

use vstd::prelude::*;

verus! {

/// GPIO pin (BCM numbering) that drives the red lamp.
pub const GPIO_LED_R: u8 = 23;

/// GPIO pin (BCM numbering) that drives the green lamp.
pub const GPIO_LED_G: u8 = 24;

/// What the two-colour status lamp shows.
#[derive(Debug, Clone, Copy, PartialEq, Eq, Structural)]
pub enum LEDState {
    GREEN,
    RED,
    OFF,
}

impl LEDState {
    /// Levels of the red and green pins, in that order (`true` is high): at
    /// most one colour is lit.
    pub fn pin_levels(&self) -> (r: (bool, bool))
        ensures
            r == (match *self {
                LEDState::GREEN => (false, true),
                LEDState::RED => (true, false),
                LEDState::OFF => (false, false),
            }),
    {
        match self {
            LEDState::GREEN => (false, true),
            LEDState::RED => (true, false),
            LEDState::OFF => (false, false),
        }
    }
}

} // verus!
