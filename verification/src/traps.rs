//! Trap entry wiring: hardware vectors, the per-line low-level hook
//! table, and the trap entry path that runs a line's hook and then
//! acknowledges the controller exactly once.

use vstd::prelude::*;
use crate::Fatal;
use crate::idt::FaultTable;
use crate::idt::GateHandler;
use crate::interrupts::Handler;
use crate::interrupts::Interrupt;
use crate::pic::PIC_1_OFFSET;
use crate::pic::PicChain;

verus! {

/// A hardware vector the controllers deliver, named by its line.
#[derive(Debug, Clone, Copy, PartialEq, Eq, Structural)]
pub enum InterruptIndex {
    Timer,
    Keyboard,
}

impl InterruptIndex {
    /// The vector number: the controller base plus the line ordinal.
    pub open spec fn spec_as_u8(self) -> u8 {
        match self {
            InterruptIndex::Timer => PIC_1_OFFSET,
            InterruptIndex::Keyboard => (PIC_1_OFFSET + 1) as u8,
        }
    }

    pub fn as_u8(self) -> (v: u8)
        ensures
            v == self.spec_as_u8(),
    {
        match self {
            InterruptIndex::Timer => PIC_1_OFFSET,
            InterruptIndex::Keyboard => PIC_1_OFFSET + 1,
        }
    }

    pub fn as_usize(self) -> (v: usize)
        ensures
            v == self.spec_as_u8() as usize,
    {
        self.as_u8() as usize
    }

    /// The logical line this vector delivers.
    pub open spec fn spec_interrupt(self) -> Interrupt {
        match self {
            InterruptIndex::Timer => Interrupt::Timer,
            InterruptIndex::Keyboard => Interrupt::Keyboard,
        }
    }

    pub fn interrupt(self) -> (i: Interrupt)
        ensures
            i == self.spec_interrupt(),
    {
        match self {
            InterruptIndex::Timer => Interrupt::Timer,
            InterruptIndex::Keyboard => Interrupt::Keyboard,
        }
    }
}

/// One low-level hook slot per hardware line. A slot takes its
/// handler once; installing over an occupied slot is fatal.
#[derive(Debug)]
pub struct TrapTable {
    pub timer: Option<Handler>,
    pub keyboard: Option<Handler>,
}

impl TrapTable {
    /// The hook slot of one vector.
    pub open spec fn slot_view(self, index: InterruptIndex) -> Option<Handler> {
        match index {
            InterruptIndex::Timer => self.timer,
            InterruptIndex::Keyboard => self.keyboard,
        }
    }

    /// Both slots empty.
    pub fn new() -> (t: TrapTable)
        ensures
            forall|i: InterruptIndex| #[trigger] t.slot_view(i) is None,
    {
        TrapTable { timer: None, keyboard: None }
    }
}

/// Program the controllers and wire each hardware line's gate to the
/// dispatcher. The other gates are untouched.
pub fn init(idt: &mut FaultTable, pics: &mut PicChain)
    requires
        old(idt).wf(),
        !old(idt).loaded,
        old(pics).wf(),
    ensures
        final(idt).wf(),
        !final(idt).loaded,
        final(idt).gates@ == old(idt).gates@.update(
            InterruptIndex::Timer.spec_as_u8() as int,
            Some(GateHandler::Hardware(InterruptIndex::Timer)),
        ).update(
            InterruptIndex::Keyboard.spec_as_u8() as int,
            Some(GateHandler::Hardware(InterruptIndex::Keyboard)),
        ),
        final(pics).wf(),
        final(pics).initialised,
        final(pics).acknowledged == old(pics).acknowledged,
{
    pics.init();
    idt.set_gate(InterruptIndex::Timer.as_u8(), GateHandler::Hardware(InterruptIndex::Timer));
    idt.set_gate(
        InterruptIndex::Keyboard.as_u8(),
        GateHandler::Hardware(InterruptIndex::Keyboard),
    );
}

/// Install the low-level hook for one line. The slot is meant to be
/// taken once; a second installation is the fatal slot-occupied
/// violation and changes nothing.
pub fn set_interrupt_handler(table: &mut TrapTable, index: InterruptIndex, handler: Handler) -> (r:
    Result<(), Fatal>)
    ensures
        old(table).slot_view(index) is Some ==> r == Err::<(), Fatal>(Fatal::TrapSlotOccupied)
            && *final(table) == *old(table),
        old(table).slot_view(index) is None ==> r == Ok::<(), Fatal>(())
            && final(table).slot_view(index) == Some(handler),
        forall|i: InterruptIndex|
            i != index ==> #[trigger] final(table).slot_view(i) == old(table).slot_view(i),
{
    match index {
        InterruptIndex::Timer => {
            if table.timer.is_some() {
                return Err(Fatal::TrapSlotOccupied);
            }
            table.timer = Some(handler);
        }
        InterruptIndex::Keyboard => {
            if table.keyboard.is_some() {
                return Err(Fatal::TrapSlotOccupied);
            }
            table.keyboard = Some(handler);
        }
    }
    Ok(())
}

/// The trap entry path for one delivered vector: run the line's hook
/// if one is installed, then acknowledge the controller exactly once
/// — strictly after the hook, and whether or not one ran.
pub fn trap_entry(table: &mut TrapTable, pics: &mut PicChain, index: InterruptIndex)
    requires
        old(pics).wf(),
        old(pics).initialised,
    ensures
        final(table).slot_view(index) == match old(table).slot_view(index) {
            Some(h) => Some(h.spec_after(index.spec_interrupt())),
            None => None::<Handler>,
        },
        forall|i: InterruptIndex|
            i != index ==> #[trigger] final(table).slot_view(i) == old(table).slot_view(i),
        final(pics).wf(),
        final(pics).initialised,
        final(pics).acknowledged@ == old(pics).acknowledged@.push(index.spec_as_u8()),
{
    match index {
        InterruptIndex::Timer => {
            if let Some(h) = &mut table.timer {
                let _ = h.invoke(Interrupt::Timer);
            }
        }
        InterruptIndex::Keyboard => {
            if let Some(h) = &mut table.keyboard {
                let _ = h.invoke(Interrupt::Keyboard);
            }
        }
    }
    let vector = index.as_u8();
    pics.notify_end_of_interrupt(vector);
}

} // verus!
