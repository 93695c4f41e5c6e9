use irq_hal::irq::{register_handler_common, IrqError, IrqHandler, IrqTable, LineEnable};
use std::sync::atomic::{AtomicUsize, Ordering};
use irq_hal::platform::aarch64_common::gicv3::{
    dispatch_irq, end_of_interrupt, get_and_acknowledge_interrupt, init_primary, init_secondary,
    register_handler, send_ipi,
    set_enable, SgiRequest, IPI_SGI_ID, MAX_IRQ_COUNT, TIMER_IRQ_NUM, UART_IRQ_NUM,
};

static V3_HITS: AtomicUsize = AtomicUsize::new(0);

fn v3_handler() {
    V3_HITS.fetch_add(1, Ordering::SeqCst);
}

fn never_called() {
    panic!("the handler must not run");
}

#[test]
fn gicv3_constants() {
    assert_eq!(MAX_IRQ_COUNT, 1024);
    assert_eq!(TIMER_IRQ_NUM, 30);
    assert_eq!(UART_IRQ_NUM, 33);
    assert_eq!(IPI_SGI_ID, 3);
}

#[test]
fn gicv3_set_enable_request() {
    assert_eq!(set_enable(30, true), LineEnable { line: 30, enabled: true });
    assert_eq!(set_enable(33, false), LineEnable { line: 33, enabled: false });
    assert_eq!(set_enable(u32::MAX as usize, true), LineEnable { line: u32::MAX as usize, enabled: true });
}

#[test]
fn gicv3_send_ipi_decodes_affinity() {
    assert_eq!(
        send_ipi(0, 0, 0),
        SgiRequest { intid: 3, affinity3: 0, affinity2: 0, affinity1: 0, target_list: 1 }
    );
    assert_eq!(
        send_ipi(5, 2, 0x0000_00aa_80bb_ccdd),
        SgiRequest { intid: 3, affinity3: 0xaa, affinity2: 0xbb, affinity1: 0xcc, target_list: 1 }
    );
    assert_eq!(
        send_ipi(0, 0, 0xffff_ff00_ff00_00ff),
        SgiRequest { intid: 3, affinity3: 0, affinity2: 0, affinity1: 0, target_list: 1 }
    );
    assert_eq!(
        send_ipi(0, 0, u64::MAX),
        SgiRequest { intid: 3, affinity3: 0xff, affinity2: 0xff, affinity1: 0xff, target_list: 1 }
    );
}

#[test]
fn gicv3_end_of_interrupt_id() {
    assert_eq!(end_of_interrupt(30), 30);
    assert_eq!(end_of_interrupt(1019), 1019);
    assert_eq!(end_of_interrupt(u32::MAX as usize), u32::MAX);
}

#[test]
fn gicv3_acknowledged_line() {
    assert_eq!(get_and_acknowledge_interrupt(Some(30)), 30);
    assert_eq!(get_and_acknowledge_interrupt(Some(0)), 0);
    assert_eq!(get_and_acknowledge_interrupt(Some(u32::MAX)), u32::MAX as usize);
}

#[test]
fn gicv3_dispatch_runs_the_acknowledged_line() {
    let mut table = IrqTable::new();
    assert!(register_handler_common(&mut table, 30, IrqHandler { entry: v3_handler }).is_some());
    assert!(!dispatch_irq(&table, Some(33)));
    assert_eq!(V3_HITS.load(Ordering::SeqCst), 0);
    assert!(dispatch_irq(&table, Some(30)));
    assert_eq!(V3_HITS.load(Ordering::SeqCst), 1);
    assert!(dispatch_irq(&table, Some(30)));
    assert_eq!(V3_HITS.load(Ordering::SeqCst), 2);
}

#[test]
fn gicv3_dispatch_without_a_pending_interrupt() {
    let mut table = IrqTable::new();
    assert!(register_handler_common(&mut table, 0, IrqHandler { entry: never_called }).is_some());
    assert!(!dispatch_irq(&table, None));
}

#[test]
fn gicv3_dispatch_of_a_line_outside_the_table() {
    let mut table = IrqTable::new();
    assert!(register_handler_common(&mut table, 0, IrqHandler { entry: never_called }).is_some());
    assert!(!dispatch_irq(&table, Some(1024)));
    assert!(!dispatch_irq(&table, Some(1 << 16)));
    assert!(!dispatch_irq(&table, Some(u32::MAX)));
}

#[test]
fn gicv3_registration_is_unsupported() {
    assert_eq!(
        register_handler(30, IrqHandler { entry: never_called }),
        Err(IrqError::Unsupported)
    );
}

#[test]
fn gicv3_init_unmasks_the_rescheduling_interrupt() {
    assert_eq!(init_primary(), LineEnable { line: 3, enabled: true });
    assert_eq!(init_secondary(), LineEnable { line: 3, enabled: true });
}
