//! Power management IC: the configuration written at start-up, and how bus
//! failures are reported.

use vstd::prelude::*;

verus! {

/// I2C address of the PMIC.
pub const PMIC_ADDR: u8 = 0x08;

/// The (register, value) writes that configure the PMIC, in order.
pub open spec fn config_sequence_spec() -> Seq<(u8, u8)> {
    seq![
        (0x4Fu8, 0x00u8),  // LDO2: 1.8 V
        (0x50u8, 0x0Fu8),  // enable LDO2
        (0x4Cu8, 0x05u8),  // LDO1: 1.0 V
        (0x4Du8, 0x03u8),  // enable LDO1
        (0x52u8, 0x09u8),  // LDO3: 1.2 V
        (0x53u8, 0x0Fu8),  // enable LDO3
        (0x9Cu8, 0x80u8),  // value seen on working boards, not documented
        (0x9Eu8, 0x20u8),  // charger LED off
        (0x42u8, 0x02u8),  // current limit: 2 A
        (0x94u8, 0xA0u8),  // VBUS current limit: 1.5 A
        (0x3Bu8, 0x0Fu8),  // SW2: 3.3 V
        (0x35u8, 0x0Fu8),  // SW1: 3.0 V
    ]
}

/// The configuration writes, in the order they must be sent.
pub fn config_sequence() -> (r: Vec<(u8, u8)>)
    ensures
        r@ == config_sequence_spec(),
{
    let r: Vec<(u8, u8)> = vec![
        (0x4F, 0x00),
        (0x50, 0x0F),
        (0x4C, 0x05),
        (0x4D, 0x03),
        (0x52, 0x09),
        (0x53, 0x0F),
        (0x9C, 0x80),
        (0x9E, 0x20),
        (0x42, 0x02),
        (0x94, 0xA0),
        (0x3B, 0x0F),
        (0x35, 0x0F),
    ];
    assert(r@ =~= config_sequence_spec());
    r
}

/// A failure of an I2C transfer, as the bus driver reports it.
#[derive(Clone, Copy, Debug, PartialEq, Eq, Structural)]
pub enum I2cFault {
    /// Bus error.
    Bus,
    /// Arbitration lost.
    Arbitration,
    /// No acknowledge received.
    NotAcknowledge,
    /// Any other failure the bus driver may report.
    Other,
}

#[derive(Clone, Copy, Debug, PartialEq, Eq, Structural)]
pub enum Error {
    /// The bus itself failed.
    Interface,
    /// The PMIC did not answer.
    NotResponse,
    Unknown,
}

/// The PMIC error that a bus failure is reported as.
pub open spec fn error_of(fault: I2cFault) -> Error {
    match fault {
        I2cFault::Bus | I2cFault::Arbitration => Error::Interface,
        I2cFault::NotAcknowledge => Error::NotResponse,
        I2cFault::Other => Error::Unknown,
    }
}

impl From<I2cFault> for Error {
    fn from(fault: I2cFault) -> (r: Error)
        ensures
            r == error_of(fault),
    {
        match fault {
            I2cFault::Bus | I2cFault::Arbitration => Error::Interface,
            I2cFault::NotAcknowledge => Error::NotResponse,
            I2cFault::Other => Error::Unknown,
        }
    }
}

impl vstd::std_specs::convert::FromSpecImpl<I2cFault> for Error {
    open spec fn obeys_from_spec() -> bool {
        true
    }

    open spec fn from_spec(v: I2cFault) -> Error {
        error_of(v)
    }
}

} // verus!
