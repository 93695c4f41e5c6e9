//! The RISC-V back end: interrupts are told apart by the trap cause.
//!
//! The timer interrupt has one handler of its own and does not go through
//! the table. External interrupts go through the table. No external
//! interrupt controller is driven yet: which line fired is not asked, and
//! lines are neither acknowledged nor masked.

use vstd::prelude::*;
use crate::irq::{
    dispatch_irq_common, register_accepts, register_handler_common, register_slots, IrqError,
    IrqHandler, IrqTable,
};

verus! {

/// The interrupt bit of the trap cause: the highest bit of a machine word.
pub const INTC_IRQ_BASE: usize = usize::MAX - usize::MAX / 2;

/// Supervisor software interrupt.
pub const S_SOFT: usize = INTC_IRQ_BASE + 1;

/// Supervisor timer interrupt.
pub const S_TIMER: usize = INTC_IRQ_BASE + 5;

/// Supervisor external interrupt.
pub const S_EXT: usize = INTC_IRQ_BASE + 9;

/// The maximum number of IRQs.
pub const MAX_IRQ_COUNT: usize = 1024;

/// The timer IRQ number: the trap cause of the supervisor timer interrupt.
pub const TIMER_IRQ_NUM: usize = S_TIMER;

/// The line that stands for the external interrupt while no controller
/// tells which one fired.
pub const EXT_DISPATCH_LINE: usize = 0;

/// The classes of interrupt that this back end knows.
#[derive(Clone, Copy, Debug, PartialEq, Eq, Structural)]
pub enum TrapCause {
    /// The supervisor software interrupt. Nothing is done with it yet.
    Software,
    /// The supervisor timer interrupt.
    Timer,
    /// A supervisor external interrupt.
    External,
}

/// The class of a trap cause, or `None` for a cause that this back end
/// cannot classify.
pub open spec fn classify(scause: usize) -> Option<TrapCause> {
    if scause == S_SOFT {
        Some(TrapCause::Software)
    } else if scause == S_TIMER {
        Some(TrapCause::Timer)
    } else if scause == S_EXT {
        Some(TrapCause::External)
    } else {
        None
    }
}

/// A trap cause without its interrupt bit.
pub open spec fn without_interrupt_bit(scause: usize) -> int {
    if scause >= INTC_IRQ_BASE {
        scause - INTC_IRQ_BASE
    } else {
        scause as int
    }
}

#[verifier::external_type_specification]
#[verifier::external_body]
#[verifier::reject_recursive_types(T)]
pub struct ExLazyInit<T>(lazyinit::LazyInit<T>);

/// What a `lazyinit::LazyInit` holds: nothing, or the value that it was
/// initialised with.
pub uninterp spec fn lazy_value(cell: lazyinit::LazyInit<IrqHandler>) -> Option<IrqHandler>;

/// `lazyinit::LazyInit::new`: the new cell holds nothing.
#[verifier::external_body]
fn lazy_new() -> (cell: lazyinit::LazyInit<IrqHandler>)
    ensures
        lazy_value(cell).is_none(),
{
    lazyinit::LazyInit::new()
}

/// `lazyinit::LazyInit::is_inited`: whether the cell holds a value.
#[verifier::external_body]
fn lazy_is_inited(cell: &lazyinit::LazyInit<IrqHandler>) -> (inited: bool)
    ensures
        inited == lazy_value(*cell).is_some(),
{
    cell.is_inited()
}

/// `lazyinit::LazyInit::init_once`: puts the value into an empty cell. It
/// panics on a cell that holds one, which is left out.
#[verifier::external_body]
fn lazy_init_once(cell: &mut lazyinit::LazyInit<IrqHandler>, handler: IrqHandler)
    requires
        lazy_value(*old(cell)).is_none(),
    ensures
        lazy_value(*final(cell)) == Some(handler),
{
    cell.init_once(handler);
}

/// Runs the handler that the cell holds. Reading an empty
/// `lazyinit::LazyInit` panics, which is left out.
#[verifier::external_body]
fn lazy_call(cell: &lazyinit::LazyInit<IrqHandler>)
    requires
        lazy_value(*cell).is_some(),
{
    (cell.entry)()
}

/// The place of the one timer handler. Its view is the handler, once one
/// has been installed.
pub struct TimerSlot {
    cell: lazyinit::LazyInit<IrqHandler>,
}

impl View for TimerSlot {
    type V = Option<IrqHandler>;

    closed spec fn view(&self) -> Option<IrqHandler> {
        lazy_value(self.cell)
    }
}

impl TimerSlot {
    /// A slot without a handler.
    pub fn new() -> (slot: TimerSlot)
        ensures
            slot@.is_none(),
    {
        TimerSlot { cell: lazy_new() }
    }

    /// Whether the timer has a handler.
    pub fn is_registered(&self) -> (registered: bool)
        ensures
            registered == self@.is_some(),
    {
        lazy_is_inited(&self.cell)
    }
}

/// Classifies a trap cause.
pub fn trap_cause(scause: usize) -> (cause: Option<TrapCause>)
    ensures
        cause == classify(scause),
{
    if scause == S_SOFT {
        Some(TrapCause::Software)
    } else if scause == S_TIMER {
        Some(TrapCause::Timer)
    } else if scause == S_EXT {
        Some(TrapCause::External)
    } else {
        None
    }
}

/// The line number of an external interrupt: the trap cause with its
/// interrupt bit cleared.
pub fn external_line(scause: usize) -> (line: usize)
    ensures
        line == without_interrupt_bit(scause),
        scause == S_EXT ==> line == 9,
{
    if scause >= INTC_IRQ_BASE {
        scause - INTC_IRQ_BASE
    } else {
        scause
    }
}

/// Enables or disables the given IRQ. There is no controller to tell, so
/// nothing is done, for an external interrupt as for any other.
pub fn set_enable(scause: usize, _enabled: bool) {
}

/// Registers an IRQ handler for the interrupt class of `scause`.
///
/// The timer takes one handler, once: a second attempt fails and leaves
/// the first in place. A handler of the external interrupt goes into the
/// table, on the line that the cause gives without its interrupt bit, and
/// the line is then enabled, which does nothing on this back end. The
/// software interrupt takes no handler. Returns whether the handler was
/// installed. A cause outside the three classes is the caller's to refuse.
pub fn register_handler(timer: &mut TimerSlot, table: &mut IrqTable, scause: usize, handler: IrqHandler) -> (installed: bool)
    requires
        classify(scause).is_some(),
    ensures
        scause == S_TIMER ==> installed == old(timer)@.is_none(),
        scause == S_TIMER && installed ==> final(timer)@ == Some(handler),
        scause == S_EXT ==> installed == register_accepts(old(table)@, without_interrupt_bit(scause)),
        scause == S_EXT ==> final(table)@ == register_slots(old(table)@, without_interrupt_bit(scause), handler),
        scause == S_SOFT ==> !installed,
        scause != S_TIMER || !installed ==> final(timer)@ == old(timer)@,
        scause != S_EXT ==> final(table)@ == old(table)@,
{
    if scause == S_TIMER {
        if !lazy_is_inited(&timer.cell) {
            lazy_init_once(&mut timer.cell, handler);
            true
        } else {
            false
        }
    } else if scause == S_EXT {
        match register_handler_common(table, external_line(scause), handler) {
            Some(unmask) => {
                set_enable(unmask.line, unmask.enabled);
                true
            },
            None => false,
        }
    } else {
        false
    }
}

/// Dispatches the interrupt of the class that `scause` names.
///
/// The timer interrupt runs the timer's handler, if one is installed. An
/// external interrupt runs the handler of `EXT_DISPATCH_LINE`, if the
/// table has one. The software interrupt has no handler. Returns whether a
/// handler ran; that none did is not an error. A cause outside the three
/// classes is the caller's to refuse.
pub fn dispatch_irq(timer: &TimerSlot, table: &IrqTable, scause: usize) -> (handled: bool)
    requires
        classify(scause).is_some(),
    ensures
        scause == S_TIMER ==> handled == timer@.is_some(),
        scause == S_EXT ==> handled == table@.dom().contains(EXT_DISPATCH_LINE as int),
        scause == S_SOFT ==> !handled,
{
    if scause == S_TIMER {
        if lazy_is_inited(&timer.cell) {
            lazy_call(&timer.cell);
            true
        } else {
            false
        }
    } else if scause == S_EXT {
        dispatch_irq_common(table, EXT_DISPATCH_LINE)
    } else {
        false
    }
}

/// The hart mask that names the one hart `dest`, or `None` where a machine
/// word has no bit for it.
pub fn send_ipi(_vector: u8, dest: u32) -> (mask: Option<usize>)
    ensures
        mask.is_some() == (dest < usize::BITS),
        mask.is_some() ==> mask.unwrap() == 1usize << dest,
{
    if dest >= usize::BITS {
        None
    } else {
        Some(1usize << dest)
    }
}

/// Asking which external line fired is not implemented.
pub fn get_and_acknowledge_interrupt() -> (line: Result<usize, IrqError>)
    ensures
        line == Err::<usize, IrqError>(IrqError::Unsupported),
{
    Err(IrqError::Unsupported)
}

} // verus!
