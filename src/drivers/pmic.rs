//! Register-level view of the power management IC on the I2C bus.

use vstd::prelude::*;

verus! {

/// I2C address of the PMIC.
pub const PMIC_ADDR: u8 = 0x08;

/// A register of the PMIC.
#[derive(Clone, Copy, Debug, PartialEq, Eq, Structural)]
pub enum Reg {
    DeviceId,
}

impl Reg {
    /// The register's address.
    pub open spec fn address(self) -> u8 {
        match self {
            Reg::DeviceId => 0x00,
        }
    }

    pub fn as_u8(&self) -> (r: u8)
        ensures
            r == self.address(),
    {
        match self {
            Reg::DeviceId => 0x00,
        }
    }
}

#[derive(Clone, Copy, Debug, PartialEq, Eq, Structural)]
pub enum Error {
    I2cError,
}

/// The PMIC behind the bus handle `i2c`.
pub struct Pmic<I2C> {
    pub i2c: I2C,
}

impl<I2C> Pmic<I2C> {
    pub fn new(i2c: I2C) -> (r: Self)
        ensures
            r.i2c == i2c,
    {
        Self { i2c }
    }

    /// The write-then-read transaction that fetches the device id: the bus
    /// address and the register to write before reading one byte.
    pub fn device_id_request() -> (r: (u8, u8))
        ensures
            r == (PMIC_ADDR, Reg::DeviceId.address()),
    {
        (PMIC_ADDR, Reg::DeviceId.as_u8())
    }
}

} // verus!
