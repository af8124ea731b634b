//! Clock-tree typestate: the bootloader's clock configuration has to be
//! undone (`Clk<Reset>`) before the external oscillator is brought up.
//! The register sequences themselves are run by the board bring-up.

use vstd::prelude::*;

verus! {

/// Core clock frequency after bring-up, in hertz.
pub const CORE_FREQUENCY_HZ: u32 = 480_000_000;

/// Number of idle iterations that let the external oscillator settle.
pub const OSCILLATOR_SETTLE_CYCLES: u32 = 15_000;

/// The clock tree still holds whatever the bootloader left.
pub struct Unreset;

/// The clock tree has been brought back to its reset values.
pub struct Reset;

pub struct Clk<State> {
    state: State,
}

impl Clk<Unreset> {
    pub fn new() -> Clk<Unreset> {
        Clk { state: Unreset }
    }

    /// Records that the reset sequence has run.
    pub fn into_reset(self) -> Clk<Reset> {
        Clk { state: Reset }
    }
}

} // verus!
