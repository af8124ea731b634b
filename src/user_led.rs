//! The user LEDs of the board.

use crate::drivers::led::Led;
use vstd::prelude::*;

verus! {

/// Marks a pin that drives one of the board's user LEDs.
pub trait BoardLed {

}

pub trait UserLed {
    /// Whether the LED is lit.
    spec fn lit(&self) -> bool;

    fn set_on(&mut self)
        ensures
            final(self).lit(),
    ;

    fn set_off(&mut self)
        ensures
            !final(self).lit(),
    ;

    fn toggle(&mut self)
        ensures
            final(self).lit() == !old(self).lit(),
    ;
}

impl<PIN: BoardLed> UserLed for Led<PIN> {
    open spec fn lit(&self) -> bool {
        self.is_lit()
    }

    fn set_on(&mut self) {
        self.on();
    }

    fn set_off(&mut self) {
        self.off();
    }

    fn toggle(&mut self) {
        Led::toggle(self);
    }
}

} // verus!
