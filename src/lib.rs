//! Board support and the USB control/echo pipeline of an Arduino Portenta H7.
//!
//! The verified part of the crate holds the decisions: the enumeration edge
//! detector, the bounded mailbox between the interrupt and the task context,
//! the LED command protocol, the poll driver and the consumers.  Register
//! access and the USB stack itself are driven from outside this crate.

pub mod channel;
pub mod command;
pub mod consumer;
pub mod drivers;
pub mod enumeration;
pub mod led;
pub mod pmic;
pub mod poll;
pub mod sys;
pub mod user_led;
