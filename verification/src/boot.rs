//! The boot sequence: Descriptor Foundation, then the fault table,
//! then the controller bridge and hardware gates, then driver
//! registration, then table activation — after which interrupts can
//! be enabled.

use vstd::prelude::*;
use crate::allocators::StaticAllocator;
use crate::devices;
use crate::gdt;
use crate::gdt::DescriptorTables;
use crate::gdt::FAULT_STACK_SIZE;
use crate::gdt::SegmentSelectors;
use crate::idt;
use crate::idt::FaultTable;
use crate::idt::FaultTableGuard;
use crate::idt::GateHandler;
use crate::interrupts::Handler;
use crate::interrupts::Registry;
use crate::pic::PicChain;
use crate::traps;
use crate::traps::InterruptIndex;
use crate::traps::TrapTable;

verus! {

/// Bytes of arena the handler registry's storage is budgeted.
pub const INTERRUPT_ALLOC_SIZE: usize = 1024;

/// Total bytes of the process-wide arena: the registry's budget plus
/// the budget of the other components.
pub const INTERNAL_ALLOC_SIZE: usize = INTERRUPT_ALLOC_SIZE + 1024;

/// Everything the boot sequence constructs, passed by handle into
/// every consumer for the kernel's lifetime.
#[derive(Debug)]
pub struct KernelState {
    pub descriptor_tables: DescriptorTables,
    pub selectors: SegmentSelectors,
    pub fault_table_guard: FaultTableGuard,
    pub fault_table: FaultTable,
    pub pics: PicChain,
    pub trap_table: TrapTable,
    pub registry: Registry,
    pub allocator: StaticAllocator<INTERNAL_ALLOC_SIZE>,
}

/// Run the boot sequence from fresh state: build the Descriptor
/// Foundation over the fault stack, build the fault table, program
/// the controllers and wire the hardware gates, install both device
/// drivers, and activate the table. Every singleton is constructed
/// exactly once, so no duplicate-construction fault can arise here.
pub fn boot(fault_stack_base: u64) -> (k: KernelState)
    requires
        fault_stack_base + FAULT_STACK_SIZE < gdt::CANONICAL_BOUND,
    ensures
        k.descriptor_tables.segment_table is Some,
        k.descriptor_tables.task_state matches Some(t) && gdt::tss_stack(
            *t,
            gdt::DOUBLE_FAULT_IST_INDEX as int,
        ) == fault_stack_base + FAULT_STACK_SIZE,
        k.selectors == (SegmentSelectors { code: 8, task_state: 16 }),
        k.fault_table_guard.constructed,
        k.fault_table.wf(),
        k.fault_table.loaded,
        k.fault_table.gates@[idt::BREAKPOINT_VECTOR as int] == Some(GateHandler::Breakpoint),
        k.fault_table.gates@[idt::DOUBLE_FAULT_VECTOR as int] == Some(
            GateHandler::DoubleFault { stack_index: gdt::DOUBLE_FAULT_IST_INDEX },
        ),
        k.fault_table.gates@[InterruptIndex::Timer.spec_as_u8() as int] == Some(
            GateHandler::Hardware(InterruptIndex::Timer),
        ),
        k.fault_table.gates@[InterruptIndex::Keyboard.spec_as_u8() as int] == Some(
            GateHandler::Hardware(InterruptIndex::Keyboard),
        ),
        k.pics.wf(),
        k.pics.initialised,
        k.pics.acknowledged@ == Seq::<u8>::empty(),
        k.trap_table.slot_view(InterruptIndex::Timer) == Some(Handler::Counter { events: 0 }),
        k.trap_table.slot_view(InterruptIndex::Keyboard) == Some(Handler::Counter { events: 0 }),
        k.registry.wf(),
        k.registry.next_id == 0,
        k.allocator.wf(),
        k.allocator.cursor == 0,
{
    let mut descriptor_tables = DescriptorTables::new();
    let selectors = match gdt::init(&mut descriptor_tables, fault_stack_base) {
        Ok(selectors) => selectors,
        Err(_) => {
            proof {
                assert(false);
            }
            SegmentSelectors { code: 0, task_state: 0 }
        }
    };
    let mut fault_table_guard = FaultTableGuard::new();
    let mut fault_table = match idt::init(&mut fault_table_guard) {
        Ok(table) => table,
        Err(_) => {
            proof {
                assert(false);
            }
            FaultTable { gates: Vec::new(), loaded: false }
        }
    };
    let mut pics = PicChain::new();
    traps::init(&mut fault_table, &mut pics);
    let mut trap_table = TrapTable::new();
    let _ = devices::timer::init(&mut trap_table);
    let _ = devices::keyboard::init(&mut trap_table);
    fault_table.load();
    KernelState {
        descriptor_tables,
        selectors,
        fault_table_guard,
        fault_table,
        pics,
        trap_table,
        registry: Registry::new(),
        allocator: StaticAllocator::new(),
    }
}

} // verus!
