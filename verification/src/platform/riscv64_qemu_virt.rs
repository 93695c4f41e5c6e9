//! RISC-V on the QEMU `virt` machine.

pub mod irq;
