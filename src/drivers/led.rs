//! An LED on an active-low output pin.
//!
//! `Led` keeps the pin handle and whether the LED is lit.  The pin level
//! that goes with that state is `level()`: low while lit, high while dark.
//! Whoever holds the hardware drives `pin` to that level.

use vstd::prelude::*;

verus! {

/// The level of a digital output.
#[derive(Clone, Copy, Debug, PartialEq, Eq, Structural)]
pub enum PinState {
    Low,
    High,
}

/// The level that lights an active-low LED, or leaves it dark.
pub open spec fn level_of(lit: bool) -> PinState {
    if lit {
        PinState::Low
    } else {
        PinState::High
    }
}

pub struct Led<PIN> {
    pub pin: PIN,
    lit: bool,
}

impl<PIN> Led<PIN> {
    /// Whether the LED is lit.
    pub closed spec fn is_lit(&self) -> bool {
        self.lit
    }

    /// The pin handle.
    pub closed spec fn pin_spec(&self) -> PIN {
        self.pin
    }

    /// Wraps a pin that board bring-up left high, so the LED starts dark.
    pub fn new(pin: PIN) -> (r: Self)
        ensures
            !r.is_lit(),
            r.pin_spec() == pin,
    {
        Self { pin, lit: false }
    }

    pub fn on(&mut self)
        ensures
            final(self).is_lit(),
            final(self).pin_spec() == old(self).pin_spec(),
    {
        self.lit = true;
    }

    pub fn off(&mut self)
        ensures
            !final(self).is_lit(),
            final(self).pin_spec() == old(self).pin_spec(),
    {
        self.lit = false;
    }

    pub fn toggle(&mut self)
        ensures
            final(self).is_lit() == !old(self).is_lit(),
            final(self).pin_spec() == old(self).pin_spec(),
    {
        self.lit = !self.lit;
    }

    pub fn is_on(&self) -> (r: bool)
        ensures
            r == self.is_lit(),
    {
        self.lit
    }

    /// The level to drive the pin to.
    pub fn level(&self) -> (r: PinState)
        ensures
            r == level_of(self.is_lit()),
    {
        if self.lit {
            PinState::Low
        } else {
            PinState::High
        }
    }
}

} // verus!
