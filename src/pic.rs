//! Vector offsets of the two chained 8259 interrupt controllers.

use vstd::prelude::*;

verus! {

/// Number of vectors reserved by the processor for its own exceptions.
pub const EXCEPTION_VECTORS: u8 = 32;

/// Lines served by one controller.
pub const LINES_PER_CONTROLLER: u8 = 8;

/// Vector of line 0 of the primary controller.
pub const PIC_1_OFFSET: u8 = 32;

/// Vector of line 0 of the secondary controller, right after the primary's lines.
pub const PIC_2_OFFSET: u8 = PIC_1_OFFSET + 8;

/// The vector offsets that the two controllers are programmed with.
#[derive(Clone, Copy, Debug, PartialEq, Eq, Structural)]
pub struct ChainedOffsets {
    primary: u8,
    secondary: u8,
}

/// Offsets that keep clear of the exception vectors, with the secondary's
/// eight lines right after the primary's.
pub open spec fn offsets_valid(primary: int, secondary: int) -> bool {
    &&& primary >= EXCEPTION_VECTORS
    &&& secondary == primary + LINES_PER_CONTROLLER
    &&& secondary + LINES_PER_CONTROLLER <= 256
}

/// A vector served by a controller whose line 0 sits at `offset`.
pub open spec fn served_by(offset: int, vector: int) -> bool {
    offset <= vector < offset + LINES_PER_CONTROLLER
}

impl ChainedOffsets {
    pub closed spec fn primary_offset_spec(self) -> int {
        self.primary as int
    }

    pub closed spec fn secondary_offset_spec(self) -> int {
        self.secondary as int
    }

    pub open spec fn wf(self) -> bool {
        offsets_valid(self.primary_offset_spec(), self.secondary_offset_spec())
    }

    /// The offsets this kernel uses.
    pub fn standard() -> (r: ChainedOffsets)
        ensures
            r.wf(),
            r.primary_offset_spec() == PIC_1_OFFSET,
            r.secondary_offset_spec() == PIC_2_OFFSET,
    {
        ChainedOffsets { primary: PIC_1_OFFSET, secondary: PIC_2_OFFSET }
    }

    /// Offsets with the primary's line 0 at `primary`; `None` where they
    /// would overlap the exception vectors or run past vector 255.
    pub fn new(primary: u8) -> (r: Option<ChainedOffsets>)
        ensures
            r is Some <==> EXCEPTION_VECTORS <= primary && primary as int + 16 <= 256,
            r matches Some(o) ==> o.wf() && o.primary_offset_spec() == primary
                && o.secondary_offset_spec() == primary + 8,
    {
        if primary < EXCEPTION_VECTORS || primary > 240 {
            None
        } else {
            Some(ChainedOffsets { primary, secondary: primary + LINES_PER_CONTROLLER })
        }
    }

    pub fn primary_offset(&self) -> (r: u8)
        ensures
            r == self.primary_offset_spec(),
    {
        self.primary
    }

    pub fn secondary_offset(&self) -> (r: u8)
        ensures
            r == self.secondary_offset_spec(),
    {
        self.secondary
    }

    /// Whether `vector` is raised by the secondary controller.
    pub fn on_secondary(&self, vector: u8) -> (r: bool)
        requires
            self.wf(),
        ensures
            r == served_by(self.secondary_offset_spec(), vector as int),
    {
        self.secondary <= vector && vector - self.secondary < LINES_PER_CONTROLLER
    }

    /// Whether `vector` is raised by either controller.
    pub fn handles_interrupt(&self, vector: u8) -> (r: bool)
        requires
            self.wf(),
        ensures
            r == (served_by(self.primary_offset_spec(), vector as int) || served_by(
                self.secondary_offset_spec(),
                vector as int,
            )),
    {
        (self.primary <= vector && vector - self.primary < LINES_PER_CONTROLLER)
            || self.on_secondary(vector)
    }
}

/// Valid offsets place every controller vector above the processor's
/// exception vectors, and the secondary's eight lines right after the
/// primary's, so the two controllers never share a vector.
pub proof fn lemma_offsets_clear_of_exceptions(o: ChainedOffsets, vector: int)
    requires
        o.wf(),
    ensures
        o.primary_offset_spec() >= 32,
        o.secondary_offset_spec() == o.primary_offset_spec() + 8,
        served_by(o.primary_offset_spec(), vector) || served_by(o.secondary_offset_spec(), vector)
            ==> 32 <= vector < 256,
        !(served_by(o.primary_offset_spec(), vector) && served_by(o.secondary_offset_spec(), vector)),
{
}

} // verus!
