//! Fault & Interrupt Table: the CPU-defined table of 256 gate slots.
//!
//! Construction installs the two CPU trap handlers the kernel needs —
//! the diagnostic breakpoint trap and the always-fatal double-fault
//! trap, which runs on the dedicated fault stack — and leaves the
//! remaining slots free for hardware interrupt wiring. The table is a
//! singleton: building it twice is fatal. `load` activates it on the
//! CPU and must be called exactly once, after all gates are installed.

use vstd::prelude::*;
use crate::Fatal;
use crate::TableKind;
use crate::gdt::DOUBLE_FAULT_IST_INDEX;
use crate::traps::InterruptIndex;

verus! {

/// Gate slots the CPU-defined table holds.
pub const GATE_COUNT: usize = 256;

/// CPU vector of the breakpoint trap.
pub const BREAKPOINT_VECTOR: u8 = 3;

/// CPU vector of the double-fault trap.
pub const DOUBLE_FAULT_VECTOR: u8 = 8;

/// What a gate slot routes to.
#[derive(Debug, Clone, Copy, PartialEq, Eq, Structural)]
pub enum GateHandler {
    /// Diagnostic, non-fatal breakpoint trap.
    Breakpoint,
    /// Always-fatal double fault, running on the dedicated fault
    /// stack at the given interrupt-stack-table slot.
    DoubleFault { stack_index: u16 },
    /// A hardware interrupt line routed to the dispatcher.
    Hardware(InterruptIndex),
}

/// The table of 256 gate slots and whether it has been activated on
/// the CPU.
#[derive(Debug)]
pub struct FaultTable {
    pub gates: Vec<Option<GateHandler>>,
    pub loaded: bool,
}

impl FaultTable {
    pub open spec fn wf(self) -> bool {
        self.gates@.len() == GATE_COUNT
    }

    /// Install `handler` at `vector`, replacing whatever the slot
    /// held. Gates can only change before the table is activated.
    pub fn set_gate(&mut self, vector: u8, handler: GateHandler)
        requires
            old(self).wf(),
            !old(self).loaded,
        ensures
            final(self).wf(),
            !final(self).loaded,
            final(self).gates@ == old(self).gates@.update(vector as int, Some(handler)),
    {
        let slot = &mut self.gates[vector as usize];
        *slot = Some(handler);
    }

    /// Activate the table on the CPU. Called exactly once, after all
    /// gates — CPU and hardware — are installed.
    pub fn load(&mut self)
        requires
            !old(self).loaded,
        ensures
            final(self).gates == old(self).gates,
            final(self).loaded,
    {
        self.loaded = true;
    }
}

/// Guard for the table's one-time construction.
#[derive(Debug, Clone, Copy, PartialEq, Eq, Structural)]
pub struct FaultTableGuard {
    pub constructed: bool,
}

impl FaultTableGuard {
    pub fn new() -> (g: FaultTableGuard)
        ensures
            !g.constructed,
    {
        FaultTableGuard { constructed: false }
    }
}

/// Build the fault table once: the breakpoint trap at its CPU vector
/// and the double-fault trap at its own, the latter on the dedicated
/// fault stack; every other gate is empty and the table is not yet
/// active. A second call is the fatal duplicate-construction
/// violation and changes nothing.
pub fn init(guard: &mut FaultTableGuard) -> (r: Result<FaultTable, Fatal>)
    ensures
        old(guard).constructed ==> (r matches Err(f) && f == Fatal::AlreadyInitialised(
            TableKind::FaultTable,
        ) && *final(guard) == *old(guard)),
        !old(guard).constructed ==> final(guard).constructed && (r matches Ok(t) && {
            &&& t.wf()
            &&& !t.loaded
            &&& t.gates@[BREAKPOINT_VECTOR as int] == Some(GateHandler::Breakpoint)
            &&& t.gates@[DOUBLE_FAULT_VECTOR as int] == Some(
                GateHandler::DoubleFault { stack_index: DOUBLE_FAULT_IST_INDEX },
            )
            &&& forall|v: int|
                0 <= v < GATE_COUNT && v != BREAKPOINT_VECTOR as int && v
                    != DOUBLE_FAULT_VECTOR as int ==> t.gates@[v] is None
        }),
{
    if guard.constructed {
        return Err(Fatal::AlreadyInitialised(TableKind::FaultTable));
    }
    guard.constructed = true;
    let mut table = FaultTable { gates: empty_gates(), loaded: false };
    table.set_gate(BREAKPOINT_VECTOR, GateHandler::Breakpoint);
    table.set_gate(
        DOUBLE_FAULT_VECTOR,
        GateHandler::DoubleFault { stack_index: DOUBLE_FAULT_IST_INDEX },
    );
    Ok(table)
}

/// All 256 slots empty.
fn empty_gates() -> (v: Vec<Option<GateHandler>>)
    ensures
        v@.len() == GATE_COUNT,
        forall|i: int| 0 <= i < GATE_COUNT ==> v@[i] is None,
{
    let mut v: Vec<Option<GateHandler>> = Vec::new();
    let mut i: usize = 0;
    while i < GATE_COUNT
        invariant
            i <= GATE_COUNT,
            v@.len() == i,
            forall|j: int| 0 <= j < i ==> v@[j] is None,
        decreases GATE_COUNT - i,
    {
        v.push(None);
        i += 1;
    }
    v
}

} // verus!
