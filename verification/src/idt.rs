//! The vector table: 256 slots, one per interrupt or exception vector, each
//! empty or bound to a handler.
//!
//! Every handler belongs at one vector, so a table can hold a handler only
//! there: the CPU's exceptions at their fixed numbers, the device handlers
//! at the vectors of their devices, above the reserved range.

use vstd::prelude::*;
use crate::interrupts::{InteruptsIndex, RESERVED_VECTORS};

verus! {

/// Number of slots in the table.
pub const VECTOR_COUNT: usize = 256;

/// Vector of the breakpoint exception.
pub const BREAKPOINT_VECTOR: u8 = 3;

/// Vector of the double-fault exception.
pub const DOUBLE_FAULT_VECTOR: u8 = 8;

/// Vector of the page-fault exception.
pub const PAGE_FAULT_VECTOR: u8 = 14;

/// Number of alternate stacks that a slot can choose from.
pub const FAULT_STACKS: u16 = 7;

/// The handler routines that a slot can be bound to.
#[derive(Debug, Clone, Copy, PartialEq, Eq, Structural)]
pub enum Handler {
    Breakpoint,
    PageFault,
    DoubleFault,
    Timer,
    Keyboard,
}

impl Handler {
    /// The device whose interrupt the handler serves; `None` for the handler
    /// of a CPU exception.
    pub open spec fn device(self) -> Option<InteruptsIndex> {
        match self {
            Handler::Timer => Some(InteruptsIndex::Timer),
            Handler::Keyboard => Some(InteruptsIndex::Keyboard),
            _ => None,
        }
    }

    /// The one vector at which the handler belongs.
    pub open spec fn home(self) -> int {
        match self {
            Handler::Breakpoint => BREAKPOINT_VECTOR as int,
            Handler::PageFault => PAGE_FAULT_VECTOR as int,
            Handler::DoubleFault => DOUBLE_FAULT_VECTOR as int,
            Handler::Timer => InteruptsIndex::Timer.vector(),
            Handler::Keyboard => InteruptsIndex::Keyboard.vector(),
        }
    }

    /// Whether the handler serves a device.
    pub fn is_device(self) -> (yes: bool)
        ensures
            yes == self.device().is_some(),
    {
        match self {
            Handler::Timer | Handler::Keyboard => true,
            _ => false,
        }
    }

    /// The vector at which the handler belongs.
    pub fn vector(self) -> (v: u8)
        ensures
            v == self.home(),
    {
        match self {
            Handler::Breakpoint => BREAKPOINT_VECTOR,
            Handler::PageFault => PAGE_FAULT_VECTOR,
            Handler::DoubleFault => DOUBLE_FAULT_VECTOR,
            Handler::Timer => InteruptsIndex::Timer.as_u8(),
            Handler::Keyboard => InteruptsIndex::Keyboard.as_u8(),
        }
    }
}

/// One slot of the table.
#[derive(Debug, Clone, Copy, PartialEq, Eq)]
pub enum Slot {
    /// No handler: an interrupt at this vector is a fault of its own.
    Empty,
    /// The handler to run, and the alternate stack to run it on, if any.
    Bound { handler: Handler, stack: Option<u16> },
}

/// Whether `slot` may stand at `vector`: a handler stands at its own vector
/// only, and an alternate stack is one of the `FAULT_STACKS`.
pub open spec fn slot_valid(vector: int, slot: Slot) -> bool {
    slot matches Slot::Bound { handler, stack } ==> {
        &&& handler.home() == vector
        &&& stack matches Some(index) ==> index < FAULT_STACKS
    }
}

/// The table of all vectors.
#[derive(Debug, Clone, Copy)]
pub struct VectorTable {
    slots: [Slot; 256],
}

impl View for VectorTable {
    type V = Seq<Slot>;

    closed spec fn view(&self) -> Seq<Slot> {
        self.slots@
    }
}

impl VectorTable {
    /// The invariant of the type: 256 slots, each valid at its vector.
    pub open spec fn wf(self) -> bool {
        &&& self@.len() == VECTOR_COUNT
        &&& forall|vector: int| 0 <= vector < VECTOR_COUNT ==> slot_valid(vector, #[trigger] self@[vector])
    }

    /// A table with every slot empty.
    pub fn new() -> (table: Self)
        ensures
            table.wf(),
            forall|vector: int| 0 <= vector < VECTOR_COUNT ==> table@[vector] == Slot::Empty,
    {
        VectorTable { slots: [Slot::Empty;256] }
    }

    /// The slot of `vector`.
    pub fn entry(&self, vector: u8) -> (slot: Slot)
        ensures
            slot == self@[vector as int],
    {
        self.slots[vector as usize]
    }

    /// Binds `handler` at its vector, to run on the stack that is current
    /// when the interrupt comes. Whatever stood there before is replaced.
    pub fn set_handler(&mut self, handler: Handler)
        requires
            old(self).wf(),
        ensures
            final(self).wf(),
            final(self)@ == old(self)@.update(
                handler.home(),
                Slot::Bound { handler, stack: None },
            ),
    {
        let vector: u8 = handler.vector();
        self.slots[vector as usize] = Slot::Bound { handler, stack: None };
    }

    /// Makes the bound `handler` run on the alternate stack `index`.
    pub fn set_stack_index(&mut self, handler: Handler, index: u16)
        requires
            old(self).wf(),
            old(self)@[handler.home()] matches Slot::Bound { .. },
            index < FAULT_STACKS,
        ensures
            final(self).wf(),
            final(self)@ == old(self)@.update(
                handler.home(),
                Slot::Bound { handler, stack: Some(index) },
            ),
    {
        let vector: u8 = handler.vector();
        self.slots[vector as usize] = Slot::Bound { handler, stack: Some(index) };
    }
}

/// In a well-formed table the vectors reserved for the CPU hold no device
/// handler: each is empty or bound to the handler of a CPU exception.
pub proof fn lemma_reserved_vectors_hold_no_device(table: VectorTable, vector: int)
    requires
        table.wf(),
        0 <= vector < RESERVED_VECTORS,
    ensures
        table@[vector] matches Slot::Bound { handler, .. } ==> handler.device().is_none(),
{
}

/// In a well-formed table no handler is bound twice.
pub proof fn lemma_no_duplicate_binding(table: VectorTable, first: int, second: int)
    requires
        table.wf(),
        0 <= first < VECTOR_COUNT,
        0 <= second < VECTOR_COUNT,
        table@[first] matches Slot::Bound { handler: a, .. } && table@[second] matches Slot::Bound {
            handler: b,
            ..
        } && a == b,
    ensures
        first == second,
{
}

} // verus!
