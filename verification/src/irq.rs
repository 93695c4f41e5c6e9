//! The table of interrupt handlers and the two operations that every back
//! end shares: installing a handler and dispatching a line.

use vstd::prelude::*;

verus! {

/// Number of interrupt lines that the table has a slot for.
pub const MAX_IRQ_COUNT: usize = 1024;

/// An interrupt handler: a plain function without arguments or result.
///
/// Verus has no function pointer types, so the struct is opaque to it and
/// nothing is known of what a handler does when it runs. Two handlers are
/// the same handler when they are the same value.
#[verifier::external_body]
pub struct IrqHandler {
    pub entry: fn(),
}

/// Why a back end could not carry out an operation.
#[derive(Clone, Copy, Debug, PartialEq, Eq, Structural)]
pub enum IrqError {
    /// The back end has no implementation of the operation.
    Unsupported,
}

/// A request to the interrupt controller to unmask or mask one line.
#[derive(Clone, Copy, Debug, PartialEq, Eq, Structural)]
pub struct LineEnable {
    pub line: usize,
    pub enabled: bool,
}

/// One 32-bit write to a memory-mapped register.
#[derive(Clone, Copy, Debug, PartialEq, Eq, Structural)]
pub struct RegisterWrite {
    pub addr: usize,
    pub value: u32,
}

#[verifier::external_type_specification]
#[verifier::external_body]
pub struct ExHandlerTable<const N: usize>(handler_table::HandlerTable<N>);

/// The handlers that a `handler_table::HandlerTable` holds, by slot.
pub uninterp spec fn table_slots(table: handler_table::HandlerTable<1024>) -> Map<int, IrqHandler>;

/// The table without any handler.
pub open spec fn no_slots() -> Map<int, IrqHandler> {
    Map::empty()
}

/// `handler_table::HandlerTable::new`: every slot of the new table is empty.
#[verifier::external_body]
fn table_new() -> (table: handler_table::HandlerTable<1024>)
    ensures
        table_slots(table) == no_slots(),
{
    handler_table::HandlerTable::new()
}

/// `handler_table::HandlerTable::register_handler`: the handler goes into
/// the slot `idx` when `idx` is below the capacity and the slot is empty;
/// otherwise the table stays as it was. The result tells which.
#[verifier::external_body]
fn table_register(table: &mut handler_table::HandlerTable<1024>, idx: usize, handler: IrqHandler) -> (ok: bool)
    ensures
        ok == (idx < 1024 && !table_slots(*old(table)).dom().contains(idx as int)),
        ok ==> table_slots(*final(table)) == table_slots(*old(table)).insert(idx as int, handler),
        !ok ==> table_slots(*final(table)) == table_slots(*old(table)),
{
    table.register_handler(idx, handler.entry)
}

/// `handler_table::HandlerTable::handle`: runs the handler in slot `idx` and
/// returns `true`, or returns `false` when `idx` is out of range or the slot
/// is empty.
#[verifier::external_body]
fn table_handle(table: &handler_table::HandlerTable<1024>, idx: usize) -> (handled: bool)
    ensures
        handled == (idx < 1024 && table_slots(*table).dom().contains(idx as int)),
{
    table.handle(idx)
}

/// What installing `handler` on `line` makes of the slots `slots`.
pub open spec fn register_slots(slots: Map<int, IrqHandler>, line: int, handler: IrqHandler) -> Map<int, IrqHandler> {
    if register_accepts(slots, line) {
        slots.insert(line, handler)
    } else {
        slots
    }
}

/// Whether a handler can be installed on `line`: the line has a slot and
/// the slot is free.
pub open spec fn register_accepts(slots: Map<int, IrqHandler>, line: int) -> bool {
    0 <= line < MAX_IRQ_COUNT && !slots.dom().contains(line)
}

/// The table of interrupt handlers, one optional handler per line.
///
/// Its view maps each line that has a handler to that handler.
pub struct IrqTable {
    table: handler_table::HandlerTable<1024>,
}

impl View for IrqTable {
    type V = Map<int, IrqHandler>;

    closed spec fn view(&self) -> Map<int, IrqHandler> {
        table_slots(self.table)
    }
}

impl IrqTable {
    /// A table in which no line has a handler.
    pub fn new() -> (table: IrqTable)
        ensures
            table@ == no_slots(),
    {
        IrqTable { table: table_new() }
    }
}

/// Runs the handler of `irq_num`, if the line has one.
///
/// Returns whether it had. A line without a handler is not an error: the
/// caller reports it and goes on.
pub fn dispatch_irq_common(table: &IrqTable, irq_num: usize) -> (handled: bool)
    ensures
        handled == (irq_num < MAX_IRQ_COUNT && table@.dom().contains(irq_num as int)),
{
    table_handle(&table.table, irq_num)
}

/// Installs `handler` on the line `irq_num`.
///
/// It succeeds when the line is below `MAX_IRQ_COUNT` and has no handler
/// yet. On success it returns the request that unmasks the line, for the
/// caller to hand to the interrupt controller: the handler is in the table
/// before the line can fire. On failure it returns `None` and the table is
/// untouched.
pub fn register_handler_common(table: &mut IrqTable, irq_num: usize, handler: IrqHandler) -> (unmask: Option<LineEnable>)
    ensures
        unmask.is_some() == register_accepts(old(table)@, irq_num as int),
        unmask.is_some() ==> unmask.unwrap() == (LineEnable { line: irq_num, enabled: true }),
        final(table)@ == register_slots(old(table)@, irq_num as int, handler),
{
    if irq_num < MAX_IRQ_COUNT && table_register(&mut table.table, irq_num, handler) {
        Some(LineEnable { line: irq_num, enabled: true })
    } else {
        None
    }
}

/// Of two attempts to install a handler on the same line, one after the
/// other, the second never succeeds and leaves the table as the first left
/// it. On a free line the first succeeds, so exactly one of the two does,
/// and the line then holds the first handler.
pub proof fn lemma_one_registration_wins(slots: Map<int, IrqHandler>, line: int, first: IrqHandler, second: IrqHandler)
    ensures
        !register_accepts(register_slots(slots, line, first), line),
        register_slots(register_slots(slots, line, first), line, second) == register_slots(slots, line, first),
        register_accepts(slots, line) ==> register_slots(slots, line, first)[line] == first,
        !register_accepts(slots, line) ==> register_slots(slots, line, first) == slots,
{
}

/// A line outside the table is refused, whatever the table holds, and the
/// table stays as it was.
pub proof fn lemma_out_of_range_rejected(slots: Map<int, IrqHandler>, line: int, handler: IrqHandler)
    requires
        line >= MAX_IRQ_COUNT,
    ensures
        !register_accepts(slots, line),
        register_slots(slots, line, handler) == slots,
{
}

/// Installing a handler on one line changes no other line.
pub proof fn lemma_registration_is_local(slots: Map<int, IrqHandler>, line: int, handler: IrqHandler, other: int)
    requires
        other != line,
    ensures
        register_slots(slots, line, handler).dom().contains(other) == slots.dom().contains(other),
        slots.dom().contains(other) ==> register_slots(slots, line, handler)[other] == slots[other],
{
}

} // verus!
