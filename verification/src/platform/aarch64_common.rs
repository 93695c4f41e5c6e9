//! AArch64: the generic timer and the two generations of the GIC.

pub mod generic_timer;
pub mod gicv2;
pub mod gicv3;
