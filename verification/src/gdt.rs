//! Descriptor Foundation: the kernel's segment table and the
//! dedicated stack reserved for fatal-fault handling.
//!
//! The table is built once at boot: the CPU-required null slot, a
//! kernel code segment, and a task-state segment whose interrupt
//! stack table carries the fault stack's top. The CPU-defined binary
//! layout of the descriptors comes from the `x86_64` crate; what is
//! verified here is the table discipline around it — slot accounting,
//! the selectors that come out, the fault-stack arithmetic, and the
//! guard that makes a second construction fatal.

use vstd::prelude::*;
use crate::Fatal;
use crate::TableKind;
use x86_64::VirtAddr;
use x86_64::structures::gdt::Descriptor;
use x86_64::structures::gdt::GlobalDescriptorTable;
use x86_64::structures::tss::TaskStateSegment;

verus! {

/// Interrupt-stack-table slot reserved for the double-fault stack.
pub const DOUBLE_FAULT_IST_INDEX: u16 = 0;

/// Bytes reserved for the fatal-fault stack.
pub const FAULT_STACK_SIZE: u64 = 4096 * 5;

/// Number of interrupt-stack-table slots a task-state segment holds.
pub const IST_SLOT_COUNT: u16 = 7;

/// Slots available in the segment table, the null slot included.
pub const SEGMENT_SLOT_COUNT: u16 = 8;

/// First address above the lower canonical range: an address at or
/// past it cannot go into a stack-table slot.
pub const CANONICAL_BOUND: u64 = 0x8000_0000_0000;

#[verifier::external_type_specification]
#[verifier::external_body]
pub struct ExGlobalDescriptorTable(GlobalDescriptorTable);

#[verifier::external_type_specification]
#[verifier::external_body]
pub struct ExTaskStateSegment(TaskStateSegment);

/// How many descriptor slots of the table are in use, the null slot
/// included.
pub uninterp spec fn gdt_slots(table: GlobalDescriptorTable) -> int;

/// The stack-top address an interrupt-stack-table slot holds.
pub uninterp spec fn tss_stack(tss: TaskStateSegment, slot: int) -> u64;

/// Relies on GlobalDescriptorTable::new: an empty table, with the
/// null slot as the only one in use.
#[verifier::external_body]
fn gdt_new() -> (table: GlobalDescriptorTable)
    ensures
        gdt_slots(table) == 1,
{
    GlobalDescriptorTable::new()
}

/// Relies on GlobalDescriptorTable::add_entry over
/// Descriptor::kernel_code_segment: the descriptor takes one slot,
/// and the selector is the slot's index times eight, privilege zero.
/// The call panics on a full table, so a free slot is required.
#[verifier::external_body]
fn gdt_add_kernel_code_segment(table: &mut GlobalDescriptorTable) -> (selector: u16)
    requires
        gdt_slots(*old(table)) + 1 <= SEGMENT_SLOT_COUNT,
    ensures
        gdt_slots(*final(table)) == gdt_slots(*old(table)) + 1,
        selector == gdt_slots(*old(table)) * 8,
{
    table.add_entry(Descriptor::kernel_code_segment()).0
}

/// Relies on Descriptor::tss_segment and
/// GlobalDescriptorTable::add_entry: the system descriptor takes two
/// slots, and the selector is the first slot's index times eight,
/// privilege zero. The segment is moved to the static lifetime the
/// descriptor requires, and handed back. The call panics without two
/// free slots, so they are required.
#[verifier::external_body]
fn gdt_add_task_state_segment(table: &mut GlobalDescriptorTable, tss: TaskStateSegment) -> (r: (
    u16,
    &'static TaskStateSegment,
))
    requires
        gdt_slots(*old(table)) + 2 <= SEGMENT_SLOT_COUNT,
    ensures
        gdt_slots(*final(table)) == gdt_slots(*old(table)) + 2,
        r.0 == gdt_slots(*old(table)) * 8,
        forall|slot: int| 0 <= slot < IST_SLOT_COUNT ==> tss_stack(*r.1, slot) == tss_stack(
            tss,
            slot,
        ),
{
    let leaked: &'static TaskStateSegment = Box::leak(Box::new(tss));
    (table.add_entry(Descriptor::tss_segment(leaked)).0, leaked)
}

/// Relies on TaskStateSegment::new: every interrupt-stack-table slot
/// starts at address zero.
#[verifier::external_body]
fn tss_new() -> (tss: TaskStateSegment)
    ensures
        forall|slot: int| 0 <= slot < IST_SLOT_COUNT ==> tss_stack(tss, slot) == 0,
{
    TaskStateSegment::new()
}

/// Relies on VirtAddr::new — which accepts the address because it
/// lies below the canonical boundary — and on the interrupt stack
/// table being a plain array field.
#[verifier::external_body]
fn tss_set_stack(tss: &mut TaskStateSegment, slot: u16, top: u64)
    requires
        slot < IST_SLOT_COUNT,
        top < CANONICAL_BOUND,
    ensures
        tss_stack(*final(tss), slot as int) == top,
        forall|other: int|
            0 <= other < IST_SLOT_COUNT && other != slot ==> tss_stack(*final(tss), other)
                == tss_stack(*old(tss), other),
{
    tss.interrupt_stack_table[slot as usize] = VirtAddr::new(top);
}

/// The selectors the boot sequence loads into the CPU.
#[derive(Debug, Clone, Copy, PartialEq, Eq, Structural)]
pub struct SegmentSelectors {
    pub code: u16,
    pub task_state: u16,
}

/// The singleton descriptor tables: both are constructed exactly once
/// for the kernel's entire lifetime.
#[derive(Debug)]
pub struct DescriptorTables {
    pub task_state: Option<&'static TaskStateSegment>,
    pub segment_table: Option<GlobalDescriptorTable>,
}

impl DescriptorTables {
    /// Nothing constructed yet.
    pub fn new() -> (t: DescriptorTables)
        ensures
            t.task_state is None,
            t.segment_table is None,
    {
        DescriptorTables { task_state: None, segment_table: None }
    }
}

/// Build the Descriptor Foundation once: reserve the fault stack and
/// install its top at the double-fault stack slot, then build the
/// segment table with a kernel code segment and a task-state segment
/// and return their selectors for the CPU to load. A second call is
/// the fatal duplicate-construction violation and changes nothing.
pub fn init(tables: &mut DescriptorTables, fault_stack_base: u64) -> (r: Result<
    SegmentSelectors,
    Fatal,
>)
    requires
        fault_stack_base + FAULT_STACK_SIZE < CANONICAL_BOUND,
    ensures
        old(tables).segment_table is Some ==> r == Err::<SegmentSelectors, Fatal>(
            Fatal::AlreadyInitialised(TableKind::SegmentTable),
        ) && *final(tables) == *old(tables),
        old(tables).segment_table is None && old(tables).task_state is Some ==> r == Err::<
            SegmentSelectors,
            Fatal,
        >(Fatal::AlreadyInitialised(TableKind::TaskStateSegment)) && *final(tables) == *old(
            tables,
        ),
        old(tables).segment_table is None && old(tables).task_state is None ==> {
            &&& r == Ok::<SegmentSelectors, Fatal>(SegmentSelectors { code: 8, task_state: 16 })
            &&& final(tables).task_state matches Some(t) && tss_stack(
                *t,
                DOUBLE_FAULT_IST_INDEX as int,
            ) == fault_stack_base + FAULT_STACK_SIZE && forall|slot: int|
                DOUBLE_FAULT_IST_INDEX < slot < IST_SLOT_COUNT ==> tss_stack(*t, slot) == 0
            &&& final(tables).segment_table matches Some(g) && gdt_slots(g) == 4
        },
{
    if tables.segment_table.is_some() {
        return Err(Fatal::AlreadyInitialised(TableKind::SegmentTable));
    }
    if tables.task_state.is_some() {
        return Err(Fatal::AlreadyInitialised(TableKind::TaskStateSegment));
    }
    let mut tss = tss_new();
    let ghost fresh_tss = tss;
    tss_set_stack(&mut tss, DOUBLE_FAULT_IST_INDEX, fault_stack_base + FAULT_STACK_SIZE);
    let ghost armed_tss = tss;
    let mut table = gdt_new();
    let code = gdt_add_kernel_code_segment(&mut table);
    let (task_state_selector, installed_tss) = gdt_add_task_state_segment(&mut table, tss);
    tables.task_state = Some(installed_tss);
    tables.segment_table = Some(table);
    proof {
        assert forall|slot: int|
            DOUBLE_FAULT_IST_INDEX < slot < IST_SLOT_COUNT implies tss_stack(
            *installed_tss,
            slot,
        ) == 0 by {
            assert(tss_stack(*installed_tss, slot) == tss_stack(armed_tss, slot));
            assert(tss_stack(armed_tss, slot) == tss_stack(fresh_tss, slot));
            assert(tss_stack(fresh_tss, slot) == 0);
        }
    }
    Ok(SegmentSelectors { code, task_state: task_state_selector })
}

} // verus!
