//! The GICv2 back end: a distributor shared by all cores and one CPU
//! interface per core.

use vstd::prelude::*;
use crate::irq::{
    dispatch_irq_common, register_accepts, register_handler_common, register_slots, IrqHandler,
    IrqTable, LineEnable, RegisterWrite,
};

verus! {

/// The maximum number of IRQs.
pub const MAX_IRQ_COUNT: usize = 1024;

/// The timer IRQ number: private peripheral interrupt 14.
pub const TIMER_IRQ_NUM: usize = 30;

/// The software-generated interrupt that asks another core to reschedule.
pub const IPI_SGI_ID: u32 = 3;

/// Offset of the software-generated-interrupt register from the base of
/// the register block.
pub const SGIR_OFFSET: usize = 0x0f00;

/// Offset of the end-of-interrupt register from the base of the register
/// block.
pub const EOIR_OFFSET: usize = 0x0010;

/// Number of software-generated interrupts.
pub const SGI_COUNT: usize = 16;

/// Number of private peripheral interrupts.
pub const PPI_COUNT: usize = 16;

/// Number of shared peripheral interrupts.
pub const SPI_COUNT: usize = 988;

/// Different types of interrupt that the GIC handles.
#[derive(Clone, Copy, Debug, PartialEq, Eq, Structural)]
pub enum InterruptType {
    /// Software-generated interrupt, for signals between cores.
    SGI,
    /// Private peripheral interrupt, private to one core.
    PPI,
    /// Shared peripheral interrupt, which can go to any core.
    SPI,
}

/// The interrupt id of the `id`-th interrupt of a type: the three types
/// follow each other in the id space.
pub open spec fn interrupt_id(id: int, int_type: InterruptType) -> Option<int> {
    match int_type {
        InterruptType::SGI => if 0 <= id < 16 {
            Some(id)
        } else {
            None
        },
        InterruptType::PPI => if 0 <= id < 16 {
            Some(id + 16)
        } else {
            None
        },
        InterruptType::SPI => if 0 <= id < 988 {
            Some(id + 32)
        } else {
            None
        },
    }
}

/// Translates an interrupt of a given type to a GIC interrupt id, or
/// `None` where the type has no interrupt of that number.
pub fn translate_irq(id: usize, int_type: InterruptType) -> (intid: Option<usize>)
    ensures
        intid.is_some() == interrupt_id(id as int, int_type).is_some(),
        intid.is_some() ==> intid.unwrap() == interrupt_id(id as int, int_type).unwrap(),
{
    match int_type {
        InterruptType::SGI => {
            if id < SGI_COUNT {
                Some(id)
            } else {
                None
            }
        },
        InterruptType::PPI => {
            if id < PPI_COUNT {
                Some(id + SGI_COUNT)
            } else {
                None
            }
        },
        InterruptType::SPI => {
            if id < SPI_COUNT {
                Some(id + SGI_COUNT + PPI_COUNT)
            } else {
                None
            }
        },
    }
}

/// The timer's line is the id of private peripheral interrupt 14.
pub proof fn lemma_timer_irq_num()
    ensures
        interrupt_id(14, InterruptType::PPI) == Some(TIMER_IRQ_NUM as int),
{
}

/// Enables or disables the given IRQ: the request to hand to the
/// distributor.
pub fn set_enable(irq_num: usize, enabled: bool) -> (request: LineEnable)
    ensures
        request == (LineEnable { line: irq_num, enabled }),
{
    LineEnable { line: irq_num, enabled }
}

/// Registers an IRQ handler for the given IRQ.
///
/// On success it returns the request that enables the line at the
/// distributor. On failure it returns `None` and the table is untouched.
pub fn register_handler(table: &mut IrqTable, irq_num: usize, handler: IrqHandler) -> (unmask: Option<LineEnable>)
    ensures
        unmask.is_some() == register_accepts(old(table)@, irq_num as int),
        unmask.is_some() ==> unmask.unwrap() == (LineEnable { line: irq_num, enabled: true }),
        final(table)@ == register_slots(old(table)@, irq_num as int, handler),
{
    register_handler_common(table, irq_num, handler)
}

/// Initialisation on the primary core: what to unmask once distributor and
/// CPU interface are set up. It is the rescheduling interrupt, which is a
/// software-generated interrupt and so has an id below 16.
pub fn init_primary() -> (unmask: LineEnable)
    ensures
        unmask == (LineEnable { line: 3, enabled: true }),
        unmask.line == IPI_SGI_ID,
        unmask.line < SGI_COUNT,
{
    LineEnable { line: IPI_SGI_ID as usize, enabled: true }
}

/// Initialisation on a secondary core: what to unmask once the core's CPU
/// interface is set up. Every core unmasks the rescheduling interrupt.
pub fn init_secondary() -> (unmask: LineEnable)
    ensures
        unmask == (LineEnable { line: 3, enabled: true }),
        unmask.line == IPI_SGI_ID,
        unmask.line < SGI_COUNT,
{
    LineEnable { line: IPI_SGI_ID as usize, enabled: true }
}

/// Dispatches the interrupt `vector` that the CPU interface has
/// acknowledged: runs its handler and returns `true`, or returns `false`
/// where the line has none.
pub fn dispatch_irq(table: &IrqTable, vector: u32) -> (handled: bool)
    ensures
        handled == (vector < MAX_IRQ_COUNT && table@.dom().contains(vector as int)),
{
    dispatch_irq_common(table, vector as usize)
}

/// Number of cores that the target list of a software-generated interrupt
/// can name: it has one bit for each of the cores 0 to 7.
pub const SGI_TARGET_COUNT: u64 = 8;

/// The core number in a value of the multiprocessor affinity register:
/// its affinity level 1.
pub open spec fn core_of(mpidr: u64) -> u64 {
    (mpidr >> 8) & 0xff
}

/// The value that raises the rescheduling interrupt on the core `core`:
/// the core's bit in the target list, which is the bits 16 to 23, and the
/// interrupt id in the low bits.
pub open spec fn sgi_value(core: u64) -> u32 {
    (1u32 << ((core + 16) as u32)) | IPI_SGI_ID
}

/// For a core that the target list can name, the value has the
/// interrupt's id in its low four bits, the core's bit in the target list
/// and no other bit.
pub proof fn lemma_sgi_value(core: u64)
    requires
        core < SGI_TARGET_COUNT,
    ensures
        sgi_value(core) & 0xf == IPI_SGI_ID,
        (sgi_value(core) >> 16) & 0xff == 1u32 << (core as u32),
        sgi_value(core) & 0xff00_fff0 == 0,
{
    let shift: u32 = (core + 16) as u32;
    let low: u32 = core as u32;
    assert(((1u32 << shift) | 3) & 0xf == 3) by (bit_vector)
        requires
            16 <= shift < 24,
    ;
    assert((((1u32 << shift) | 3) >> 16) & 0xff == 1u32 << low) by (bit_vector)
        requires
            16 <= shift < 24,
            low == shift - 16,
    ;
    assert(((1u32 << shift) | 3) & 0xff00_fff0 == 0) by (bit_vector)
        requires
            16 <= shift < 24,
    ;
}

/// Sends the rescheduling interrupt to the core that `mpidr` names.
///
/// Returns the write that does it, to the register at `SGIR_OFFSET` from
/// `base`. The register's target list has one bit for each of the cores 0
/// to 7. A core number from 8 up has no bit there, and nothing is written
/// for it; nor where the address does not fit.
pub fn send_ipi(_vector: u8, _dest: u32, mpidr: u64, base: usize) -> (write: Option<RegisterWrite>)
    ensures
        write.is_some() == (core_of(mpidr) < SGI_TARGET_COUNT && base + SGIR_OFFSET <= usize::MAX),
        write.is_some() ==> write.unwrap().addr == base + SGIR_OFFSET,
        write.is_some() ==> write.unwrap().value == sgi_value(core_of(mpidr)),
{
    let cpu_id: u64 = (mpidr >> 8) & 0xff;
    if cpu_id >= SGI_TARGET_COUNT || base > usize::MAX - SGIR_OFFSET {
        return None;
    }
    let shift: u32 = (cpu_id + 16) as u32;
    let value: u32 = (1u32 << shift) | IPI_SGI_ID;
    Some(RegisterWrite { addr: base + SGIR_OFFSET, value })
}

/// The low 32 bits of a line number: what a 32-bit register takes of it.
pub open spec fn low_word(irq: usize) -> u32 {
    (irq as int % 0x1_0000_0000) as u32
}

/// Signals the end of the interrupt `irq`.
///
/// Returns the write that does it, to the register at `EOIR_OFFSET` from
/// `base`, or `None` where the address does not fit.
pub fn end_of_interrupt(irq: usize, base: usize) -> (write: Option<RegisterWrite>)
    ensures
        write.is_some() == (base + EOIR_OFFSET <= usize::MAX),
        write.is_some() ==> write.unwrap().addr == base + EOIR_OFFSET,
        write.is_some() ==> write.unwrap().value == low_word(irq),
{
    if base > usize::MAX - EOIR_OFFSET {
        return None;
    }
    let value: u32 = ((irq as u64) % 0x1_0000_0000) as u32;
    Some(RegisterWrite { addr: base + EOIR_OFFSET, value })
}

} // verus!
