//! Interrupt and memory foundation for a single-core x86_64 kernel:
//! CPU descriptor tables, the interrupt-controller bridge, a per-line
//! handler registry with an ordered dispatcher, and the fixed-capacity
//! bump allocator that backs all dynamic allocation.

use vstd::prelude::*;

pub mod interrupts;
pub mod pic;
pub mod allocators;
pub mod gdt;
pub mod idt;
pub mod traps;
pub mod devices;
pub mod boot;
pub mod display;
pub mod builder;
pub mod args;

use crate::interrupts::Exception;

verus! {

/// A fatal, unrecoverable condition: the kernel has no supervisor to
/// retry or restart it, so the surrounding program must abort on these.
#[derive(Debug, Clone, Copy, PartialEq, Eq, Structural)]
pub enum Fatal {
    /// A singleton hardware table was constructed a second time.
    AlreadyInitialised(TableKind),
    /// A low-level trap slot already holds a handler.
    TrapSlotOccupied,
    /// An unrecognised or unrecoverable CPU exception was raised.
    Exception(Exception),
}

/// The singleton tables whose duplicate construction is fatal.
#[derive(Debug, Clone, Copy, PartialEq, Eq, Structural)]
pub enum TableKind {
    TaskStateSegment,
    SegmentTable,
    FaultTable,
}

} // verus!
