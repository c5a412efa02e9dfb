use vstd::prelude::*;

verus! {

/// Cells per hash instance: the two inputs and their hash.
pub const CELLS_PER_HASH: u32 = 3;

/// Input cells per hash instance.
pub const INPUT_CELLS_PER_HASH: u32 = 2;

/// The hash builtin.
#[derive(Debug)]
pub struct HashBuiltinRunner {
    pub ratio: u32,
    pub base: isize,
    pub cells_per_instance: u32,
    pub n_input_cells: u32,
    pub stop_ptr: Option<usize>,
    pub included: bool,
}

impl HashBuiltinRunner {
    pub fn new(ratio: u32, included: bool) -> (r: HashBuiltinRunner)
        ensures
            r.ratio == ratio,
            r.base == 0,
            r.cells_per_instance == CELLS_PER_HASH,
            r.n_input_cells == INPUT_CELLS_PER_HASH,
            r.stop_ptr.is_none(),
            r.included == included,
    {
        HashBuiltinRunner {
            ratio,
            base: 0,
            cells_per_instance: CELLS_PER_HASH,
            n_input_cells: INPUT_CELLS_PER_HASH,
            stop_ptr: None,
            included,
        }
    }

    pub fn base(&self) -> (r: isize)
        ensures
            r == self.base,
    {
        self.base
    }

    pub fn ratio(&self) -> (r: u32)
        ensures
            r == self.ratio,
    {
        self.ratio
    }
}

} // verus!
