use irq_hal::irq::{IrqHandler, IrqTable, LineEnable, RegisterWrite};
use irq_hal::platform::aarch64_common::gicv2::{
    dispatch_irq, end_of_interrupt, init_primary, init_secondary, register_handler, send_ipi,
    set_enable, translate_irq, InterruptType, EOIR_OFFSET, IPI_SGI_ID, MAX_IRQ_COUNT,
    SGIR_OFFSET, SGI_TARGET_COUNT, TIMER_IRQ_NUM,
};
use std::sync::atomic::{AtomicUsize, Ordering};

static V2_HITS: AtomicUsize = AtomicUsize::new(0);

fn v2_handler() {
    V2_HITS.fetch_add(1, Ordering::SeqCst);
}

#[test]
fn gicv2_constants() {
    assert_eq!(MAX_IRQ_COUNT, 1024);
    assert_eq!(TIMER_IRQ_NUM, 30);
    assert_eq!(IPI_SGI_ID, 3);
    assert_eq!(SGIR_OFFSET, 0xf00);
    assert_eq!(EOIR_OFFSET, 0x10);
    assert_eq!(SGI_TARGET_COUNT, 8);
}

#[test]
fn gicv2_init_unmasks_the_rescheduling_interrupt() {
    assert_eq!(init_primary(), LineEnable { line: 3, enabled: true });
    assert_eq!(init_secondary(), LineEnable { line: 3, enabled: true });
}

#[test]
fn translate_irq_by_type() {
    assert_eq!(translate_irq(0, InterruptType::SGI), Some(0));
    assert_eq!(translate_irq(15, InterruptType::SGI), Some(15));
    assert_eq!(translate_irq(16, InterruptType::SGI), None);
    assert_eq!(translate_irq(14, InterruptType::PPI), Some(TIMER_IRQ_NUM));
    assert_eq!(translate_irq(15, InterruptType::PPI), Some(31));
    assert_eq!(translate_irq(16, InterruptType::PPI), None);
    assert_eq!(translate_irq(1, InterruptType::SPI), Some(33));
    assert_eq!(translate_irq(987, InterruptType::SPI), Some(1019));
    assert_eq!(translate_irq(988, InterruptType::SPI), None);
    assert_eq!(translate_irq(usize::MAX, InterruptType::SPI), None);
}

#[test]
fn gicv2_set_enable_request() {
    assert_eq!(set_enable(30, true), LineEnable { line: 30, enabled: true });
    assert_eq!(set_enable(33, false), LineEnable { line: 33, enabled: false });
}

#[test]
fn gicv2_register_then_dispatch() {
    let mut table = IrqTable::new();
    assert_eq!(
        register_handler(&mut table, 33, IrqHandler { entry: v2_handler }),
        Some(LineEnable { line: 33, enabled: true })
    );
    assert_eq!(register_handler(&mut table, 33, IrqHandler { entry: v2_handler }), None);
    assert_eq!(register_handler(&mut table, 1024, IrqHandler { entry: v2_handler }), None);
    assert!(!dispatch_irq(&table, 30));
    assert_eq!(V2_HITS.load(Ordering::SeqCst), 0);
    assert!(dispatch_irq(&table, 33));
    assert_eq!(V2_HITS.load(Ordering::SeqCst), 1);
    assert!(!dispatch_irq(&table, 1024));
    assert!(!dispatch_irq(&table, u32::MAX));
}

#[test]
fn gicv2_send_ipi_targets_the_core_of_mpidr() {
    let base = 0x1000_0000usize;
    assert_eq!(
        send_ipi(0, 0, 0x0000_0000, base),
        Some(RegisterWrite { addr: base + 0xf00, value: 0x0001_0003 })
    );
    assert_eq!(
        send_ipi(9, 9, 0x8000_0300, base),
        Some(RegisterWrite { addr: base + 0xf00, value: 0x0008_0003 })
    );
    assert_eq!(
        send_ipi(0, 0, 0xff_0000_0742, base),
        Some(RegisterWrite { addr: base + 0xf00, value: 0x0080_0003 })
    );
}

#[test]
fn gicv2_send_ipi_refuses_what_does_not_fit() {
    assert_eq!(send_ipi(0, 0, 0x0800, 0x1000_0000), None);
    assert_eq!(send_ipi(0, 0, 0x0f00, 0x1000_0000), None);
    assert_eq!(send_ipi(0, 0, 0x1000, 0x1000_0000), None);
    assert_eq!(send_ipi(0, 0, 0xff00, 0x1000_0000), None);
    assert_eq!(send_ipi(0, 0, 0, usize::MAX - 0xeff), None);
    assert_eq!(
        send_ipi(0, 0, 0, usize::MAX - 0xf00),
        Some(RegisterWrite { addr: usize::MAX, value: 0x0001_0003 })
    );
}

#[test]
fn gicv2_end_of_interrupt_write() {
    let base = 0x2000_0000usize;
    assert_eq!(end_of_interrupt(30, base), Some(RegisterWrite { addr: base + 0x10, value: 30 }));
    assert_eq!(end_of_interrupt(0, 0), Some(RegisterWrite { addr: 0x10, value: 0 }));
    assert_eq!(end_of_interrupt(1, usize::MAX - 0xf), None);
    assert_eq!(
        end_of_interrupt(1, usize::MAX - 0x10),
        Some(RegisterWrite { addr: usize::MAX, value: 1 })
    );
}
