//! Drivers for the devices on the board.

pub mod led;
pub mod pmic;
