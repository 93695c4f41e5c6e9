[package]
name = "irq_hal"
version = "0.1.0"
edition = "2021"
publish = false

[dependencies]
aarch64-cpu = "=9.4.0"
arm-gic = "0.10"
arm_gicv2 = "=0.1.0"
arm_pl031 = "=0.2.1"
bitflags = "=2.13.2"
handler_table = "=0.1.2"
int_ratio = "=0.1.2"
kernel_guard = "=0.1.3"
kspin = "=0.1.1"
lazyinit = "=0.2.2"
log = "=0.4.34"
memory_addr = "=0.3.2"
riscv = "=0.11.1"
sbi-rt = "=0.0.4"
spin = "=0.9.9"
tock-registers = "=0.8.1"
