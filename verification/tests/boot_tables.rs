use kernel::boot::{boot, INTERNAL_ALLOC_SIZE, INTERRUPT_ALLOC_SIZE};
use kernel::devices;
use kernel::gdt::{
    self, DescriptorTables, SegmentSelectors, DOUBLE_FAULT_IST_INDEX, FAULT_STACK_SIZE,
};
use kernel::idt::{
    self, FaultTableGuard, GateHandler, BREAKPOINT_VECTOR, DOUBLE_FAULT_VECTOR, GATE_COUNT,
};
use kernel::interrupts::Handler;
use kernel::pic::{PicChain, PIC_1_OFFSET, PIC_2_OFFSET};
use kernel::traps::{self, InterruptIndex, TrapTable};
use kernel::{Fatal, TableKind};

#[test]
fn descriptor_foundation_builds_table_and_fault_stack() {
    let mut tables = DescriptorTables::new();
    let selectors = gdt::init(&mut tables, 0x10000).unwrap();
    assert_eq!(selectors, SegmentSelectors { code: 8, task_state: 16 });
    let task_state = tables.task_state.unwrap();
    // the task-state segment is packed: copy the array out before comparing
    let stacks: [x86_64::VirtAddr; 7] = { task_state.interrupt_stack_table };
    assert_eq!(
        stacks[DOUBLE_FAULT_IST_INDEX as usize],
        x86_64::VirtAddr::new(0x10000 + FAULT_STACK_SIZE)
    );
    for slot in 1..7 {
        assert_eq!(stacks[slot], x86_64::VirtAddr::new(0));
    }
    let segment_table = tables.segment_table.as_ref().unwrap();
    // null slot, one code slot, two task-state slots
    let raw = segment_table.as_raw_slice();
    assert_eq!(raw.len(), 4);
    assert_eq!(raw[0], 0);
    assert_eq!(raw[1], 0x00af9b000000ffff);
}

#[test]
fn descriptor_foundation_aborts_on_second_construction() {
    let mut tables = DescriptorTables::new();
    assert!(gdt::init(&mut tables, 0x10000).is_ok());
    assert_eq!(
        gdt::init(&mut tables, 0x10000),
        Err(Fatal::AlreadyInitialised(TableKind::SegmentTable))
    );
}

#[test]
fn fault_table_installs_cpu_traps_once() {
    let mut guard = FaultTableGuard::new();
    let table = idt::init(&mut guard).unwrap();
    assert_eq!(table.gates.len(), GATE_COUNT);
    assert!(!table.loaded);
    assert_eq!(
        table.gates[BREAKPOINT_VECTOR as usize],
        Some(GateHandler::Breakpoint)
    );
    assert_eq!(
        table.gates[DOUBLE_FAULT_VECTOR as usize],
        Some(GateHandler::DoubleFault { stack_index: DOUBLE_FAULT_IST_INDEX })
    );
    assert!(table.gates[0].is_none());
    let second = idt::init(&mut guard);
    assert!(matches!(
        second,
        Err(Fatal::AlreadyInitialised(TableKind::FaultTable))
    ));
}

#[test]
fn controller_offsets_sit_above_cpu_vectors() {
    assert_eq!(PIC_1_OFFSET, 32);
    assert_eq!(PIC_2_OFFSET, 40);
    let pics = PicChain::new();
    assert_eq!(pics.primary_offset, 32);
    assert_eq!(pics.secondary_offset, 40);
    assert!(!pics.initialised);
}

#[test]
fn acknowledgement_outside_both_controllers_is_ignored() {
    let mut pics = PicChain::new();
    pics.init();
    pics.notify_end_of_interrupt(10);
    pics.notify_end_of_interrupt(50);
    assert!(pics.acknowledged.is_empty());
    pics.notify_end_of_interrupt(33);
    assert_eq!(pics.acknowledged, vec![33]);
}

#[test]
fn hardware_wiring_programs_controllers_and_gates() {
    let mut guard = FaultTableGuard::new();
    let mut table = idt::init(&mut guard).unwrap();
    let mut pics = PicChain::new();
    traps::init(&mut table, &mut pics);
    assert!(pics.initialised);
    assert_eq!(
        table.gates[InterruptIndex::Timer.as_usize()],
        Some(GateHandler::Hardware(InterruptIndex::Timer))
    );
    assert_eq!(
        table.gates[InterruptIndex::Keyboard.as_usize()],
        Some(GateHandler::Hardware(InterruptIndex::Keyboard))
    );
}

#[test]
fn interrupt_indices_map_to_remapped_vectors() {
    assert_eq!(InterruptIndex::Timer.as_u8(), 32);
    assert_eq!(InterruptIndex::Keyboard.as_u8(), 33);
    assert_eq!(InterruptIndex::Timer.as_usize(), 32);
    assert_eq!(InterruptIndex::Keyboard.as_usize(), 33);
}

#[test]
fn trap_slot_takes_one_handler_and_refuses_a_second() {
    let mut table = TrapTable::new();
    assert_eq!(devices::timer::init(&mut table), Ok(()));
    assert_eq!(table.timer, Some(Handler::Counter { events: 0 }));
    assert_eq!(table.keyboard, None);
    assert_eq!(devices::timer::init(&mut table), Err(Fatal::TrapSlotOccupied));
    assert_eq!(devices::keyboard::init(&mut table), Ok(()));
    assert_eq!(devices::keyboard::init(&mut table), Err(Fatal::TrapSlotOccupied));
}

#[test]
fn trap_entry_steps_the_hook_and_acknowledges_once() {
    let mut table = TrapTable::new();
    devices::timer::init(&mut table).unwrap();
    let mut pics = PicChain::new();
    pics.init();
    traps::trap_entry(&mut table, &mut pics, InterruptIndex::Timer);
    traps::trap_entry(&mut table, &mut pics, InterruptIndex::Timer);
    assert_eq!(table.timer, Some(Handler::Counter { events: 2 }));
    assert_eq!(pics.acknowledged, vec![32, 32]);
    // a line with no hook still acknowledges
    traps::trap_entry(&mut table, &mut pics, InterruptIndex::Keyboard);
    assert_eq!(pics.acknowledged, vec![32, 32, 33]);
}

#[test]
fn boot_sequence_leaves_the_kernel_ready() {
    let k = boot(0x200000);
    assert_eq!(k.selectors, SegmentSelectors { code: 8, task_state: 16 });
    assert!(k.fault_table.loaded);
    assert_eq!(
        k.fault_table.gates[BREAKPOINT_VECTOR as usize],
        Some(GateHandler::Breakpoint)
    );
    assert_eq!(
        k.fault_table.gates[DOUBLE_FAULT_VECTOR as usize],
        Some(GateHandler::DoubleFault { stack_index: DOUBLE_FAULT_IST_INDEX })
    );
    assert_eq!(
        k.fault_table.gates[32],
        Some(GateHandler::Hardware(InterruptIndex::Timer))
    );
    assert_eq!(
        k.fault_table.gates[33],
        Some(GateHandler::Hardware(InterruptIndex::Keyboard))
    );
    assert!(k.pics.initialised);
    assert!(k.pics.acknowledged.is_empty());
    assert_eq!(k.trap_table.timer, Some(Handler::Counter { events: 0 }));
    assert_eq!(k.trap_table.keyboard, Some(Handler::Counter { events: 0 }));
    assert_eq!(k.registry.next_id, 0);
    assert_eq!(k.allocator.cursor, 0);
    assert_eq!(INTERRUPT_ALLOC_SIZE, 1024);
    assert_eq!(INTERNAL_ALLOC_SIZE, 2048);
}
