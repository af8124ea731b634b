//! The on/off/toggle capability of an indicator LED.

use crate::drivers::led::Led as PinLed;
use vstd::prelude::*;

verus! {

pub trait Led {
    /// Whether the LED is lit.
    spec fn lit(&self) -> bool;

    fn on(&mut self)
        ensures
            final(self).lit(),
    ;

    fn off(&mut self)
        ensures
            !final(self).lit(),
    ;

    fn toggle(&mut self)
        ensures
            final(self).lit() == !old(self).lit(),
    ;
}

impl<PIN> Led for PinLed<PIN> {
    open spec fn lit(&self) -> bool {
        self.is_lit()
    }

    fn on(&mut self) {
        PinLed::on(self);
    }

    fn off(&mut self) {
        PinLed::off(self);
    }

    fn toggle(&mut self) {
        PinLed::toggle(self);
    }
}

} // verus!
