//! Interrupt and timer logic of a kernel hardware-abstraction layer.
//!
//! The crate holds the decisions of the layer: which handler owns an
//! interrupt line, how a trap cause is classified, what has to be written to
//! a timer or an interrupt controller. It never touches a device itself. The
//! caller reads the registers, hands the values in, and performs what the
//! functions hand back.

pub mod irq;
pub mod platform;
