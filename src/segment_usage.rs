use crate::errors::MemoryError;
use crate::memory::{spec_segment_size, MemorySegmentManager};
use vstd::prelude::*;

verus! {

/// The number of cells used in the segment at `base`.
pub open spec fn spec_used_cells(base: isize, segments: MemorySegmentManager) -> Result<
    usize,
    MemoryError,
> {
    if base < 0 {
        Err(MemoryError::AddressInTemporarySegment(base))
    } else {
        match spec_segment_size(segments.segment_used_sizes, base as int) {
            Some(size) => Ok(size),
            None => Err(MemoryError::MissingSegmentUsedSizes),
        }
    }
}

/// The number of cells used in the segment at `base`.
pub fn used_cells(base: isize, segments: &MemorySegmentManager) -> (r: Result<usize, MemoryError>)
    ensures
        r == spec_used_cells(base, *segments),
{
    if base < 0 {
        return Err(MemoryError::AddressInTemporarySegment(base));
    }
    match segments.get_segment_size(base as usize) {
        Some(size) => Ok(size),
        None => Err(MemoryError::MissingSegmentUsedSizes),
    }
}

/// Cells that may be allocated after `step` steps, one instance of
/// `cells_per_instance` cells per `ratio` steps, when `ratio` divides `step`
/// exactly and the count fits in a `usize`.
pub open spec fn spec_allocated_cells(cells_per_instance: u32, ratio: u32, step: usize) -> Option<
    usize,
> {
    if ratio > 0 && step % (ratio as usize) == 0 && cells_per_instance as int * (step as int
        / ratio as int) <= usize::MAX {
        Some((cells_per_instance as int * (step as int / ratio as int)) as usize)
    } else {
        None
    }
}

pub fn allocated_cells(cells_per_instance: u32, ratio: u32, step: usize) -> (r: Option<usize>)
    ensures
        r == spec_allocated_cells(cells_per_instance, ratio, step),
{
    if ratio == 0 || step % (ratio as usize) != 0 {
        return None;
    }
    let instances = step / (ratio as usize);
    (cells_per_instance as usize).checked_mul(instances)
}

} // verus!
