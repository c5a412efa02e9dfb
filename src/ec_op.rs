use vstd::prelude::*;

verus! {

/// Cells per elliptic-curve instance: the inputs `P.x`, `P.y`, `Q.x`, `Q.y`, `m`
/// and the outputs `R.x`, `R.y` of `R = P + m * Q`.
pub const CELLS_PER_EC_OP: u32 = 7;

/// Input cells per elliptic-curve instance.
pub const INPUT_CELLS_PER_EC_OP: u32 = 5;

/// Configuration of the elliptic-curve builtin.
#[derive(Debug, Clone, Copy, PartialEq, Eq)]
pub struct EcOpInstanceDef {
    pub ratio: u32,
    pub scalar_height: u32,
    pub scalar_bits: u32,
}

impl Default for EcOpInstanceDef {
    fn default() -> (r: EcOpInstanceDef)
        ensures
            r.ratio == 256,
            r.scalar_height == 256,
            r.scalar_bits == 252,
    {
        EcOpInstanceDef { ratio: 256, scalar_height: 256, scalar_bits: 252 }
    }
}

impl EcOpInstanceDef {
    pub fn new(ratio: u32) -> (r: EcOpInstanceDef)
        ensures
            r.ratio == ratio,
            r.scalar_height == 256,
            r.scalar_bits == 252,
    {
        EcOpInstanceDef { ratio, scalar_height: 256, scalar_bits: 252 }
    }
}

/// The elliptic-curve builtin.
#[derive(Debug)]
pub struct EcOpBuiltinRunner {
    pub ratio: u32,
    pub base: isize,
    pub cells_per_instance: u32,
    pub n_input_cells: u32,
    pub stop_ptr: Option<usize>,
    pub scalar_height: u32,
    pub scalar_bits: u32,
    pub included: bool,
}

impl EcOpBuiltinRunner {
    pub fn new(instance_def: &EcOpInstanceDef, included: bool) -> (r: EcOpBuiltinRunner)
        ensures
            r.ratio == instance_def.ratio,
            r.scalar_height == instance_def.scalar_height,
            r.scalar_bits == instance_def.scalar_bits,
            r.base == 0,
            r.cells_per_instance == CELLS_PER_EC_OP,
            r.n_input_cells == INPUT_CELLS_PER_EC_OP,
            r.stop_ptr.is_none(),
            r.included == included,
    {
        EcOpBuiltinRunner {
            ratio: instance_def.ratio,
            base: 0,
            cells_per_instance: CELLS_PER_EC_OP,
            n_input_cells: INPUT_CELLS_PER_EC_OP,
            stop_ptr: None,
            scalar_height: instance_def.scalar_height,
            scalar_bits: instance_def.scalar_bits,
            included,
        }
    }

    pub fn base(&self) -> (r: isize)
        ensures
            r == self.base,
    {
        self.base
    }

    pub fn ratio(&self) -> (r: u32)
        ensures
            r == self.ratio,
    {
        self.ratio
    }
}

} // verus!
