use crate::felt::Felt;
use vstd::prelude::*;

verus! {

/// An address: a segment index and an offset within the segment.
/// A negative segment index denotes a temporary segment.
#[derive(Debug, Clone, Copy, PartialEq, Eq, Structural)]
pub struct Relocatable {
    pub segment_index: isize,
    pub offset: usize,
}

impl Relocatable {
    pub fn new(segment_index: isize, offset: usize) -> (r: Relocatable)
        ensures
            r == (Relocatable { segment_index, offset }),
    {
        Relocatable { segment_index, offset }
    }
}

/// The content of a memory cell: an integer or an address.
#[derive(Debug, Clone, PartialEq, Eq)]
pub enum MaybeRelocatable {
    Int(Felt),
    RelocatableValue(Relocatable),
}

} // verus!

verus! {

/// The value behind an optional reference.
pub open spec fn opt_val(o: Option<&MaybeRelocatable>) -> Option<MaybeRelocatable> {
    match o {
        Some(v) => Some(*v),
        None => None,
    }
}

} // verus!
