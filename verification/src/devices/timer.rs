//! Timer driver: counts ticks delivered on the timer line.

use vstd::prelude::*;
use crate::Fatal;
use crate::interrupts::Handler;
use crate::traps::InterruptIndex;
use crate::traps::TrapTable;
use crate::traps::set_interrupt_handler;

verus! {

/// Install the tick-counting callback at the timer line's hook slot,
/// starting from zero ticks. Installing over an occupied slot is the
/// fatal slot-occupied violation and changes nothing.
pub fn init(table: &mut TrapTable) -> (r: Result<(), Fatal>)
    ensures
        old(table).slot_view(InterruptIndex::Timer) is Some ==> r == Err::<(), Fatal>(
            Fatal::TrapSlotOccupied,
        ) && *final(table) == *old(table),
        old(table).slot_view(InterruptIndex::Timer) is None ==> r == Ok::<(), Fatal>(())
            && final(table).slot_view(InterruptIndex::Timer) == Some(
            Handler::Counter { events: 0 },
        ),
        forall|i: InterruptIndex|
            i != InterruptIndex::Timer ==> #[trigger] final(table).slot_view(i) == old(
                table,
            ).slot_view(i),
{
    set_interrupt_handler(table, InterruptIndex::Timer, Handler::Counter { events: 0 })
}

} // verus!
