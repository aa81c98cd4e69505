//! Interrupt controller bridge: two cascaded 8-line controllers whose
//! vector bases are remapped just above the 32 CPU-reserved vectors,
//! so hardware vectors never collide with CPU exception vectors.
//!
//! The hardware port writes themselves happen outside this crate; the
//! bridge tracks the programmed offsets and logs each end-of-interrupt
//! acknowledgement in order, which is exactly what the dispatch
//! contracts need: one acknowledgement per dispatch, strictly after
//! the callbacks.

use vstd::prelude::*;
use crate::interrupts::Interrupt;

verus! {

/// Vector base of the primary controller: directly after the 32
/// CPU-reserved vectors.
pub const PIC_1_OFFSET: u8 = 32;

/// Vector base of the secondary controller: directly after the
/// primary's 8 lines.
pub const PIC_2_OFFSET: u8 = 40;

/// The controller vector a logical line is delivered on.
pub open spec fn spec_vector_of(line: Interrupt) -> u8 {
    (PIC_1_OFFSET + line.spec_ordinal()) as u8
}

pub fn vector_of(line: Interrupt) -> (v: u8)
    ensures
        v == spec_vector_of(line),
{
    PIC_1_OFFSET + line.ordinal() as u8
}

/// The two cascaded controllers, by their programmed state.
#[derive(Debug)]
pub struct PicChain {
    pub primary_offset: u8,
    pub secondary_offset: u8,
    pub initialised: bool,
    /// Every end-of-interrupt notification sent, in order, by vector.
    pub acknowledged: Vec<u8>,
}

impl PicChain {
    /// The offsets keep both controllers' vector ranges above the
    /// CPU-reserved vectors and disjoint from each other.
    pub open spec fn wf(self) -> bool {
        &&& self.primary_offset == PIC_1_OFFSET
        &&& self.secondary_offset == PIC_2_OFFSET
    }

    /// Whether `vector` falls in either controller's 8-line range.
    pub open spec fn spec_handles_vector(self, vector: u8) -> bool {
        ||| self.primary_offset <= vector < self.primary_offset + 8
        ||| self.secondary_offset <= vector < self.secondary_offset + 8
    }

    /// A chain remapped to the standard offsets, not yet initialised.
    pub fn new() -> (c: PicChain)
        ensures
            c.wf(),
            !c.initialised,
            c.acknowledged@ == Seq::<u8>::empty(),
    {
        PicChain {
            primary_offset: PIC_1_OFFSET,
            secondary_offset: PIC_2_OFFSET,
            initialised: false,
            acknowledged: Vec::new(),
        }
    }

    /// Program both controllers' vector bases. Idempotent at the
    /// hardware level, and not guarded against repetition.
    pub fn init(&mut self)
        ensures
            final(self).primary_offset == old(self).primary_offset,
            final(self).secondary_offset == old(self).secondary_offset,
            final(self).acknowledged == old(self).acknowledged,
            final(self).initialised,
    {
        self.initialised = true;
    }

    pub fn handles_vector(&self, vector: u8) -> (r: bool)
        ensures
            r == self.spec_handles_vector(vector),
    {
        (self.primary_offset <= vector && vector - self.primary_offset < 8) || (
        self.secondary_offset <= vector && vector - self.secondary_offset < 8)
    }

    /// Send end-of-interrupt for `vector`: logged when the vector
    /// belongs to one of the controllers, ignored otherwise. Omitting
    /// it after a dispatch starves further interrupts on that and
    /// lower-priority lines, so dispatch must call it exactly once.
    pub fn notify_end_of_interrupt(&mut self, vector: u8)
        requires
            old(self).initialised,
            old(self).wf(),
        ensures
            final(self).primary_offset == old(self).primary_offset,
            final(self).secondary_offset == old(self).secondary_offset,
            final(self).initialised,
            final(self).acknowledged@ == if old(self).spec_handles_vector(vector) {
                old(self).acknowledged@.push(vector)
            } else {
                old(self).acknowledged@
            },
    {
        if self.handles_vector(vector) {
            self.acknowledged.push(vector);
        }
    }
}

} // verus!
