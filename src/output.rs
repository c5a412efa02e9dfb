use vstd::prelude::*;

verus! {

/// The output builtin: the program writes any value into its segment.
#[derive(Debug)]
pub struct OutputBuiltinRunner {
    pub base: isize,
    pub stop_ptr: Option<usize>,
    pub included: bool,
}

impl OutputBuiltinRunner {
    pub fn new(included: bool) -> (r: OutputBuiltinRunner)
        ensures
            r.base == 0,
            r.stop_ptr.is_none(),
            r.included == included,
    {
        OutputBuiltinRunner { base: 0, stop_ptr: None, included }
    }

    pub fn base(&self) -> (r: isize)
        ensures
            r == self.base,
    {
        self.base
    }
}

} // verus!
