//! Back ends, one per family of machines.

pub mod aarch64_common;
pub mod riscv64_qemu_virt;
