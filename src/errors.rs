use crate::relocatable::Relocatable;
use vstd::prelude::*;

verus! {

/// Failures raised while reading or accounting for memory.
#[derive(Debug, Clone, PartialEq, Eq)]
pub enum MemoryError {
    /// The segment index is negative: it has not been relocated yet.
    AddressInTemporarySegment(isize),
    /// The segment sizes have not been computed, or the segment has none.
    MissingSegmentUsedSizes,
    /// A value lies outside its allowed range, or a segment has no data row.
    NumOutOfBounds,
    /// A value that had to be an integer was absent or an address.
    FoundNonInt,
    /// The step count does not give a whole number of instances.
    ErrorCalculatingMemoryUnits,
    /// The step count does not allow for the builtin's allocated cells.
    InsufficientAllocatedCells,
    /// Fewer input cells than the instance count requires.
    MissingMemoryCells(&'static str),
    /// Input cells absent at the listed offsets of the named builtin.
    MissingMemoryCellsWithOffsets(&'static str, Vec<usize>),
}

/// Failures of a builtin runner's own operations.
#[derive(Debug, Clone, PartialEq, Eq)]
pub enum RunnerError {
    /// The runner's base is still a temporary segment.
    RunnerInTemporarySegment(isize),
    /// An input cell holds a negative integer or one of more bits than allowed.
    IntegerBiggerThanPowerOfTwo(Relocatable, u32),
}

/// Failures surfaced to the virtual machine.
#[derive(Debug, Clone, PartialEq, Eq)]
pub enum VirtualMachineError {
    MemoryError(MemoryError),
}

impl From<MemoryError> for VirtualMachineError {
    fn from(e: MemoryError) -> (r: VirtualMachineError)
        ensures
            r == VirtualMachineError::MemoryError(e),
    {
        VirtualMachineError::MemoryError(e)
    }
}

impl vstd::std_specs::convert::FromSpecImpl<MemoryError> for VirtualMachineError {
    open spec fn obeys_from_spec() -> bool {
        true
    }

    open spec fn from_spec(e: MemoryError) -> VirtualMachineError {
        VirtualMachineError::MemoryError(e)
    }
}

} // verus!
