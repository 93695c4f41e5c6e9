use irq_hal::irq::{dispatch_irq_common, IrqError, IrqHandler, IrqTable};
use irq_hal::platform::riscv64_qemu_virt::irq::{
    dispatch_irq, external_line, get_and_acknowledge_interrupt, register_handler, send_ipi,
    set_enable, trap_cause, TimerSlot, TrapCause, EXT_DISPATCH_LINE, INTC_IRQ_BASE,
    MAX_IRQ_COUNT, S_EXT, S_SOFT, S_TIMER, TIMER_IRQ_NUM,
};
use std::sync::atomic::{AtomicUsize, Ordering};

static TIMER_FIRST: AtomicUsize = AtomicUsize::new(0);
static TIMER_SECOND: AtomicUsize = AtomicUsize::new(0);
static EXT_NINE: AtomicUsize = AtomicUsize::new(0);
static EXT_ZERO: AtomicUsize = AtomicUsize::new(0);
static SOFT_HITS: AtomicUsize = AtomicUsize::new(0);

fn timer_first() {
    TIMER_FIRST.fetch_add(1, Ordering::SeqCst);
}

fn timer_second() {
    TIMER_SECOND.fetch_add(1, Ordering::SeqCst);
}

fn ext_nine() {
    EXT_NINE.fetch_add(1, Ordering::SeqCst);
}

fn soft_handler() {
    SOFT_HITS.fetch_add(1, Ordering::SeqCst);
}

fn ext_zero() {
    EXT_ZERO.fetch_add(1, Ordering::SeqCst);
}

#[test]
fn riscv_constants() {
    assert_eq!(INTC_IRQ_BASE, 1usize << (usize::BITS - 1));
    assert_eq!(S_SOFT, INTC_IRQ_BASE + 1);
    assert_eq!(S_TIMER, INTC_IRQ_BASE + 5);
    assert_eq!(S_EXT, INTC_IRQ_BASE + 9);
    assert_eq!(TIMER_IRQ_NUM, S_TIMER);
    assert_eq!(MAX_IRQ_COUNT, 1024);
    assert_eq!(EXT_DISPATCH_LINE, 0);
}

#[test]
fn trap_cause_classes() {
    assert_eq!(trap_cause(S_TIMER), Some(TrapCause::Timer));
    assert_eq!(trap_cause(S_EXT), Some(TrapCause::External));
    assert_eq!(trap_cause(S_SOFT), Some(TrapCause::Software));
    assert_eq!(trap_cause(1), None);
    assert_eq!(trap_cause(S_SOFT + 1), None);
    assert_eq!(trap_cause(5), None);
    assert_eq!(trap_cause(9), None);
    assert_eq!(trap_cause(0), None);
    assert_eq!(trap_cause(INTC_IRQ_BASE), None);
    assert_eq!(trap_cause(usize::MAX), None);
}

#[test]
fn external_line_strips_the_interrupt_bit() {
    assert_eq!(external_line(S_EXT), 9);
    assert_eq!(external_line(S_TIMER), 5);
    assert_eq!(external_line(INTC_IRQ_BASE), 0);
    assert_eq!(external_line(9), 9);
    assert_eq!(external_line(usize::MAX), usize::MAX & !INTC_IRQ_BASE);
    for scause in [0usize, 1, 1023, S_SOFT, S_EXT + 1000] {
        assert_eq!(external_line(scause), scause & !INTC_IRQ_BASE);
    }
}

#[test]
fn timer_handler_is_registered_once() {
    let mut timer = TimerSlot::new();
    let mut table = IrqTable::new();
    assert!(!timer.is_registered());
    assert!(register_handler(&mut timer, &mut table, S_TIMER, IrqHandler { entry: timer_first }));
    assert!(timer.is_registered());
    assert!(!register_handler(&mut timer, &mut table, S_TIMER, IrqHandler { entry: timer_second }));
    assert!(timer.is_registered());
    assert!(dispatch_irq(&timer, &table, S_TIMER));
    assert_eq!(TIMER_FIRST.load(Ordering::SeqCst), 1);
    assert_eq!(TIMER_SECOND.load(Ordering::SeqCst), 0);
    for line in 0..MAX_IRQ_COUNT {
        assert!(!dispatch_irq_common(&table, line));
    }
}

#[test]
fn external_handler_goes_to_line_nine() {
    let mut timer = TimerSlot::new();
    let mut table = IrqTable::new();
    assert!(register_handler(&mut timer, &mut table, S_EXT, IrqHandler { entry: ext_nine }));
    assert!(!timer.is_registered());
    assert!(!register_handler(&mut timer, &mut table, S_EXT, IrqHandler { entry: ext_nine }));
    assert!(dispatch_irq_common(&table, 9));
    assert_eq!(EXT_NINE.load(Ordering::SeqCst), 1);
    assert!(!dispatch_irq(&timer, &table, S_EXT));
    assert_eq!(EXT_NINE.load(Ordering::SeqCst), 1);
}

#[test]
fn external_dispatch_uses_line_zero() {
    let timer = TimerSlot::new();
    let mut table = IrqTable::new();
    assert!(!dispatch_irq(&timer, &table, S_EXT));
    assert!(irq_hal::irq::register_handler_common(&mut table, 0, IrqHandler { entry: ext_zero })
        .is_some());
    assert!(dispatch_irq(&timer, &table, S_EXT));
    assert_eq!(EXT_ZERO.load(Ordering::SeqCst), 1);
}

#[test]
fn timer_interrupt_without_a_handler_is_not_handled() {
    let timer = TimerSlot::new();
    let table = IrqTable::new();
    assert!(!dispatch_irq(&timer, &table, S_TIMER));
    assert!(!timer.is_registered());
}

#[test]
fn software_interrupt_takes_no_handler() {
    let mut timer = TimerSlot::new();
    let mut table = IrqTable::new();
    assert!(!register_handler(&mut timer, &mut table, S_SOFT, IrqHandler { entry: soft_handler }));
    assert!(!timer.is_registered());
    for line in 0..MAX_IRQ_COUNT {
        assert!(!dispatch_irq_common(&table, line));
    }
    assert!(!dispatch_irq(&timer, &table, S_SOFT));
    assert!(register_handler(&mut timer, &mut table, S_TIMER, IrqHandler { entry: soft_handler }));
    assert!(irq_hal::irq::register_handler_common(&mut table, 0, IrqHandler { entry: soft_handler })
        .is_some());
    assert!(irq_hal::irq::register_handler_common(&mut table, 1, IrqHandler { entry: soft_handler })
        .is_some());
    assert!(!dispatch_irq(&timer, &table, S_SOFT));
    assert_eq!(SOFT_HITS.load(Ordering::SeqCst), 0);
}

#[test]
fn riscv_set_enable_does_nothing() {
    set_enable(S_EXT, true);
    set_enable(S_EXT, false);
    set_enable(S_TIMER, true);
    set_enable(0, true);
}

#[test]
fn riscv_send_ipi_mask() {
    assert_eq!(send_ipi(0, 0), Some(1));
    assert_eq!(send_ipi(7, 3), Some(8));
    assert_eq!(send_ipi(0, usize::BITS - 1), Some(INTC_IRQ_BASE));
    assert_eq!(send_ipi(0, usize::BITS), None);
    assert_eq!(send_ipi(0, u32::MAX), None);
}

#[test]
fn riscv_acknowledge_is_unsupported() {
    assert_eq!(get_and_acknowledge_interrupt(), Err(IrqError::Unsupported));
}
