//! The GICv3 back end: interrupts are acknowledged and ended through
//! system registers, and a software-generated interrupt names its target
//! by affinity.

use vstd::prelude::*;
use crate::irq::{dispatch_irq_common, IrqError, IrqHandler, IrqTable, LineEnable};

verus! {

/// The maximum number of IRQs.
pub const MAX_IRQ_COUNT: usize = 1024;

/// The timer IRQ number.
pub const TIMER_IRQ_NUM: usize = 30;

/// The UART IRQ number.
pub const UART_IRQ_NUM: usize = 33;

/// The software-generated interrupt that asks another core to reschedule.
/// Every core unmasks it when it sets up its interface.
pub const IPI_SGI_ID: u32 = 3;

/// A software-generated interrupt and the cores that it goes to: those
/// whose affinity levels 3 to 1 are the given ones and whose number within
/// that group has its bit set in `target_list`.
#[derive(Clone, Copy, Debug, PartialEq, Eq, Structural)]
pub struct SgiRequest {
    pub intid: u32,
    pub affinity3: u8,
    pub affinity2: u8,
    pub affinity1: u8,
    pub target_list: u16,
}

/// The low 32 bits of a line number: the interrupt id that the controller
/// takes it for.
pub open spec fn intid_of(irq_num: usize) -> u32 {
    (irq_num as int % 0x1_0000_0000) as u32
}

/// The eight bits of `mpidr` that start at bit `shift`.
pub open spec fn affinity_field(mpidr: u64, shift: u64) -> u8 {
    ((mpidr >> shift) & 0xff) as u8
}

fn intid_from(irq_num: usize) -> (intid: u32)
    ensures
        intid == intid_of(irq_num),
{
    ((irq_num as u64) % 0x1_0000_0000) as u32
}

fn affinity(mpidr: u64, shift: u64) -> (field: u8)
    requires
        shift < 64,
    ensures
        field == affinity_field(mpidr, shift),
{
    let bits: u64 = (mpidr >> shift) & 0xff;
    assert(bits <= 0xff) by (bit_vector)
        requires
            bits == (mpidr >> shift) & 0xff,
    ;
    bits as u8
}

/// Enables or disables the given IRQ: the request to hand to the
/// controller, which knows a line by the low 32 bits of its number.
pub fn set_enable(irq_num: usize, enabled: bool) -> (request: LineEnable)
    ensures
        request.line == intid_of(irq_num),
        request.enabled == enabled,
{
    LineEnable { line: intid_from(irq_num) as usize, enabled }
}

/// Initialisation on the primary core: what to unmask once the controller
/// is set up. It is the rescheduling interrupt, which is a
/// software-generated interrupt and so has an id below 16.
pub fn init_primary() -> (unmask: LineEnable)
    ensures
        unmask == (LineEnable { line: 3, enabled: true }),
        unmask.line == IPI_SGI_ID,
        unmask.line < 16,
{
    LineEnable { line: IPI_SGI_ID as usize, enabled: true }
}

/// Initialisation on a secondary core: what to unmask once the core's
/// interface is set up. Every core unmasks the rescheduling interrupt.
pub fn init_secondary() -> (unmask: LineEnable)
    ensures
        unmask == (LineEnable { line: 3, enabled: true }),
        unmask.line == IPI_SGI_ID,
        unmask.line < 16,
{
    LineEnable { line: IPI_SGI_ID as usize, enabled: true }
}

/// Sends the rescheduling interrupt.
///
/// The target is the first core of the group of cores that the sender
/// belongs to: the affinity levels are those of `mpidr`, the sender's
/// multiprocessor affinity register, and the target list holds bit 0 alone.
pub fn send_ipi(_vector: u8, _dest: u32, mpidr: u64) -> (request: SgiRequest)
    ensures
        request.intid == IPI_SGI_ID,
        request.affinity1 == affinity_field(mpidr, 8),
        request.affinity2 == affinity_field(mpidr, 16),
        request.affinity3 == affinity_field(mpidr, 32),
        request.target_list == 1,
{
    SgiRequest {
        intid: IPI_SGI_ID,
        affinity3: affinity(mpidr, 32),
        affinity2: affinity(mpidr, 16),
        affinity1: affinity(mpidr, 8),
        target_list: 0b1,
    }
}

/// The interrupt id to signal the end of, for the line `irq`.
pub fn end_of_interrupt(irq: usize) -> (intid: u32)
    ensures
        intid == intid_of(irq),
{
    intid_from(irq)
}

/// The line of the interrupt that the CPU interface has acknowledged.
///
/// `acknowledged` is what the interface returned. It returns nothing when
/// no interrupt is pending, and the caller has to leave that case out.
pub fn get_and_acknowledge_interrupt(acknowledged: Option<u32>) -> (line: usize)
    requires
        acknowledged.is_some(),
    ensures
        line == acknowledged.unwrap(),
{
    match acknowledged {
        Some(intid) => intid as usize,
        None => 0,
    }
}

/// Dispatches the interrupt that the CPU interface has acknowledged.
///
/// `acknowledged` is what the interface returned: the id of the pending
/// interrupt, or nothing when none is pending. The handler of that line
/// runs, if the table has one. Returns whether a handler ran. A spurious
/// acknowledgement or a line without a handler is not an error. The caller
/// ends the interrupt afterwards in either case.
pub fn dispatch_irq(table: &IrqTable, acknowledged: Option<u32>) -> (handled: bool)
    ensures
        handled == (acknowledged.is_some() && acknowledged.unwrap() < MAX_IRQ_COUNT
            && table@.dom().contains(acknowledged.unwrap() as int)),
{
    match acknowledged {
        Some(intid) => dispatch_irq_common(table, intid as usize),
        None => false,
    }
}

/// Registration through this back end is not implemented.
pub fn register_handler(irq_num: usize, handler: IrqHandler) -> (installed: Result<bool, IrqError>)
    ensures
        installed == Err::<bool, IrqError>(IrqError::Unsupported),
{
    Err(IrqError::Unsupported)
}

} // verus!
