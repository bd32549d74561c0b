//! The two chained interrupt controllers, as one unit.
//!
//! Each controller serves eight lines and raises the vectors
//! `base .. base + 8`. The secondary controller is wired into line 2 of the
//! primary, so an interrupt that it raised has to be acknowledged on both.

use vstd::prelude::*;
use crate::interrupts::RESERVED_VECTORS;

verus! {

/// Lines served by one controller.
pub const LINES_PER_CONTROLLER: u8 = 8;

/// One of the two chained controllers.
#[derive(Debug, Clone, Copy, PartialEq, Eq, Structural)]
pub enum Controller {
    Primary,
    Secondary,
}

/// The controllers to notify of the end of an interrupt.
#[derive(Debug, Clone, Copy, PartialEq, Eq, Structural)]
pub enum Acknowledgment {
    /// The vector belongs to neither controller: nothing is sent.
    Nobody,
    /// Only the primary controller is notified.
    Primary,
    /// The secondary controller is notified, then the primary.
    SecondaryThenPrimary,
}

impl Acknowledgment {
    /// The controllers that are notified, in the order of the notifications.
    pub open spec fn notified(self) -> Seq<Controller> {
        match self {
            Acknowledgment::Nobody => Seq::empty(),
            Acknowledgment::Primary => seq![Controller::Primary],
            Acknowledgment::SecondaryThenPrimary => seq![
                Controller::Secondary,
                Controller::Primary,
            ],
        }
    }
}

/// Whether `vector` is one of the eight vectors that start at `base`.
pub open spec fn in_range(base: int, vector: int) -> bool {
    base <= vector < base + LINES_PER_CONTROLLER
}

/// Whether the two bases keep both controllers out of the vectors reserved
/// for the CPU, inside the 256 vectors, and apart from each other.
pub open spec fn bases_valid(primary_base: int, secondary_base: int) -> bool {
    &&& RESERVED_VECTORS <= primary_base
    &&& primary_base + LINES_PER_CONTROLLER <= 256
    &&& RESERVED_VECTORS <= secondary_base
    &&& secondary_base + LINES_PER_CONTROLLER <= 256
    &&& (primary_base + LINES_PER_CONTROLLER <= secondary_base
        || secondary_base + LINES_PER_CONTROLLER <= primary_base)
}

/// Where the two controllers have been told to raise their interrupts.
#[derive(Debug, Clone, Copy)]
pub struct ChainedControllers {
    primary_base: u8,
    secondary_base: u8,
}

impl ChainedControllers {
    pub closed spec fn primary_base(self) -> int {
        self.primary_base as int
    }

    pub closed spec fn secondary_base(self) -> int {
        self.secondary_base as int
    }

    /// The invariant of the type: see [`bases_valid`].
    pub open spec fn wf(self) -> bool {
        bases_valid(self.primary_base(), self.secondary_base())
    }

    /// The controller that raises `vector`, if one does.
    pub open spec fn source(self, vector: int) -> Option<Controller> {
        if in_range(self.secondary_base(), vector) {
            Some(Controller::Secondary)
        } else if in_range(self.primary_base(), vector) {
            Some(Controller::Primary)
        } else {
            None
        }
    }

    /// What the end of the interrupt `vector` is answered with.
    pub open spec fn acknowledgment(self, vector: int) -> Acknowledgment {
        match self.source(vector) {
            Some(Controller::Secondary) => Acknowledgment::SecondaryThenPrimary,
            Some(Controller::Primary) => Acknowledgment::Primary,
            None => Acknowledgment::Nobody,
        }
    }

    /// Places the primary controller at `primary_base` and the secondary at
    /// `secondary_base`, or refuses bases that are not valid.
    pub fn initialize(primary_base: u8, secondary_base: u8) -> (controllers: Option<Self>)
        ensures
            controllers.is_some() == bases_valid(primary_base as int, secondary_base as int),
            controllers matches Some(c) ==> c.wf() && c.primary_base() == primary_base
                && c.secondary_base() == secondary_base,
    {
        let top: u8 = u8::MAX - LINES_PER_CONTROLLER + 1;
        let inside = RESERVED_VECTORS <= primary_base && primary_base <= top
            && RESERVED_VECTORS <= secondary_base && secondary_base <= top;
        if inside && (primary_base + (LINES_PER_CONTROLLER - 1) < secondary_base
            || secondary_base + (LINES_PER_CONTROLLER - 1) < primary_base) {
            Some(ChainedControllers { primary_base, secondary_base })
        } else {
            None
        }
    }

    pub fn primary_offset(&self) -> (base: u8)
        ensures
            base == self.primary_base(),
    {
        self.primary_base
    }

    pub fn secondary_offset(&self) -> (base: u8)
        ensures
            base == self.secondary_base(),
    {
        self.secondary_base
    }

    /// Whether one of the two controllers raises `vector`.
    pub fn handles_interrupt(&self, vector: u8) -> (handled: bool)
        ensures
            handled == self.source(vector as int).is_some(),
    {
        serves(self.primary_base, vector) || serves(self.secondary_base, vector)
    }

    /// Decides who is told that the interrupt `vector` has been handled: for a
    /// vector of the secondary controller both, the secondary first; for one
    /// of the primary only the primary; for any other vector nobody.
    pub fn acknowledge(&self, vector: u8) -> (ack: Acknowledgment)
        ensures
            ack == self.acknowledgment(vector as int),
    {
        if serves(self.secondary_base, vector) {
            Acknowledgment::SecondaryThenPrimary
        } else if serves(self.primary_base, vector) {
            Acknowledgment::Primary
        } else {
            Acknowledgment::Nobody
        }
    }
}

/// Whether the controller at `base` raises `vector`.
fn serves(base: u8, vector: u8) -> (yes: bool)
    ensures
        yes == in_range(base as int, vector as int),
{
    base <= vector && vector - base < LINES_PER_CONTROLLER
}

/// Acknowledging a vector of the secondary controller notifies the secondary
/// and then the primary; acknowledging one of the primary notifies the primary
/// alone.
pub proof fn lemma_acknowledgment_order(controllers: ChainedControllers, vector: int)
    requires
        controllers.wf(),
    ensures
        in_range(controllers.secondary_base(), vector) ==> controllers.acknowledgment(
            vector,
        ).notified() == seq![Controller::Secondary, Controller::Primary],
        in_range(controllers.primary_base(), vector) ==> controllers.acknowledgment(
            vector,
        ).notified() == seq![Controller::Primary],
        !in_range(controllers.primary_base(), vector) && !in_range(
            controllers.secondary_base(),
            vector,
        ) ==> controllers.acknowledgment(vector).notified() == Seq::<Controller>::empty(),
{
}

} // verus!
