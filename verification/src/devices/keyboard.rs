//! Keyboard driver: consumes scancode events delivered on the
//! keyboard line. Decoding the scancode and handing it upward happen
//! at the event ingestion boundary outside this crate.

use vstd::prelude::*;
use crate::Fatal;
use crate::interrupts::Handler;
use crate::traps::InterruptIndex;
use crate::traps::TrapTable;
use crate::traps::set_interrupt_handler;

verus! {

/// Install the scancode-consuming callback at the keyboard line's
/// hook slot, starting from zero events. Installing over an occupied
/// slot is the fatal slot-occupied violation and changes nothing.
pub fn init(table: &mut TrapTable) -> (r: Result<(), Fatal>)
    ensures
        old(table).slot_view(InterruptIndex::Keyboard) is Some ==> r == Err::<(), Fatal>(
            Fatal::TrapSlotOccupied,
        ) && *final(table) == *old(table),
        old(table).slot_view(InterruptIndex::Keyboard) is None ==> r == Ok::<(), Fatal>(())
            && final(table).slot_view(InterruptIndex::Keyboard) == Some(
            Handler::Counter { events: 0 },
        ),
        forall|i: InterruptIndex|
            i != InterruptIndex::Keyboard ==> #[trigger] final(table).slot_view(i) == old(
                table,
            ).slot_view(i),
{
    set_interrupt_handler(table, InterruptIndex::Keyboard, Handler::Counter { events: 0 })
}

} // verus!
