use crate::arith::div_ceil;
use crate::bitwise::{
    bitwise_deduction,
    BitwiseBuiltinRunner,
    CELLS_PER_BITWISE,
    INPUT_CELLS_PER_BITWISE,
};
use crate::ec_op::{EcOpBuiltinRunner, CELLS_PER_EC_OP, INPUT_CELLS_PER_EC_OP};
use crate::errors::{MemoryError, RunnerError, VirtualMachineError};
use crate::hash::{HashBuiltinRunner, CELLS_PER_HASH, INPUT_CELLS_PER_HASH};
use crate::memory::{spec_cell, Memory, MemorySegmentManager, VirtualMachine};
use crate::output::OutputBuiltinRunner;
use crate::range_check::RangeCheckBuiltinRunner;
use crate::relocatable::{MaybeRelocatable, Relocatable};
use crate::security::{
    address_offsets,
    check_instances_complete,
    expected_offsets,
    reports,
    spec_completeness,
    CompletenessOutcome,
};
use crate::segment_usage::{allocated_cells, spec_allocated_cells, spec_used_cells, used_cells};
use vstd::prelude::*;

verus! {

/// The builtins, as a closed set of kinds behind one interface.
#[derive(Debug)]
pub enum BuiltinRunner {
    Bitwise(BitwiseBuiltinRunner),
    EcOp(EcOpBuiltinRunner),
    Hash(HashBuiltinRunner),
    Output(OutputBuiltinRunner),
    RangeCheck(RangeCheckBuiltinRunner),
}

impl BuiltinRunner {
    pub open spec fn spec_base(&self) -> isize {
        match self {
            BuiltinRunner::Bitwise(b) => b.base,
            BuiltinRunner::EcOp(b) => b.base,
            BuiltinRunner::Hash(b) => b.base,
            BuiltinRunner::Output(b) => b.base,
            BuiltinRunner::RangeCheck(b) => b.base,
        }
    }

    /// The same builtin with its base set to `base`.
    pub open spec fn with_base(self, base: isize) -> BuiltinRunner {
        match self {
            BuiltinRunner::Bitwise(b) => BuiltinRunner::Bitwise(BitwiseBuiltinRunner { base, ..b }),
            BuiltinRunner::EcOp(b) => BuiltinRunner::EcOp(EcOpBuiltinRunner { base, ..b }),
            BuiltinRunner::Hash(b) => BuiltinRunner::Hash(HashBuiltinRunner { base, ..b }),
            BuiltinRunner::Output(b) => BuiltinRunner::Output(OutputBuiltinRunner { base, ..b }),
            BuiltinRunner::RangeCheck(b) => BuiltinRunner::RangeCheck(
                RangeCheckBuiltinRunner { base, ..b },
            ),
        }
    }

    /// Cells per instance (one for the output builtin).
    pub open spec fn spec_cells_per_instance(&self) -> int {
        match self {
            BuiltinRunner::Bitwise(b) => b.cells_per_instance as int,
            BuiltinRunner::EcOp(b) => b.cells_per_instance as int,
            BuiltinRunner::Hash(b) => b.cells_per_instance as int,
            BuiltinRunner::Output(_) => 1,
            BuiltinRunner::RangeCheck(b) => b.cells_per_instance as int,
        }
    }

    /// Input cells per instance (one for the output builtin).
    pub open spec fn spec_n_input_cells(&self) -> int {
        match self {
            BuiltinRunner::Bitwise(b) => b.n_input_cells as int,
            BuiltinRunner::EcOp(b) => b.n_input_cells as int,
            BuiltinRunner::Hash(b) => b.n_input_cells as int,
            BuiltinRunner::Output(_) => 1,
            BuiltinRunner::RangeCheck(b) => b.n_input_cells as int,
        }
    }

    /// Each kind has its own cell layout: bitwise 5 cells of which 2 inputs,
    /// elliptic-curve 7 and 5, hash 3 and 2, range check 1 and 1.
    pub open spec fn wf(&self) -> bool {
        match self {
            BuiltinRunner::Bitwise(b) => b.cells_per_instance == CELLS_PER_BITWISE
                && b.n_input_cells == INPUT_CELLS_PER_BITWISE,
            BuiltinRunner::EcOp(b) => b.cells_per_instance == CELLS_PER_EC_OP && b.n_input_cells
                == INPUT_CELLS_PER_EC_OP,
            BuiltinRunner::Hash(b) => b.cells_per_instance == CELLS_PER_HASH && b.n_input_cells
                == INPUT_CELLS_PER_HASH,
            BuiltinRunner::Output(_) => true,
            BuiltinRunner::RangeCheck(b) => b.wf(),
        }
    }

    /// The label that the completeness check names in its errors.
    pub open spec fn spec_label(&self) -> &'static str {
        match self {
            BuiltinRunner::Bitwise(_) => "bitwise",
            BuiltinRunner::EcOp(_) => "ec_op",
            BuiltinRunner::Hash(_) => "hash",
            BuiltinRunner::Output(_) => "output",
            BuiltinRunner::RangeCheck(_) => "range_check",
        }
    }

    /// Creates the builtin's segment and records its index as the base.
    pub fn initialize_segments(&mut self, segments: &mut MemorySegmentManager, memory: &mut Memory)
        requires
            old(segments).num_segments < isize::MAX,
        ensures
            *final(self) == old(self).with_base(old(segments).num_segments as isize),
            final(segments).num_segments == old(segments).num_segments + 1,
            final(segments).segment_used_sizes == old(segments).segment_used_sizes,
            final(memory).data@.drop_last() == old(memory).data@,
            final(memory).data@.len() == old(memory).data@.len() + 1,
            final(memory).data@.last()@.len() == 0,
            final(memory).validated_addresses@ == old(memory).validated_addresses@,
            final(memory).validation_rules@ == old(memory).validation_rules@,
    {
        let base = segments.add(memory).segment_index;
        match self {
            BuiltinRunner::Bitwise(b) => b.base = base,
            BuiltinRunner::EcOp(b) => b.base = base,
            BuiltinRunner::Hash(b) => b.base = base,
            BuiltinRunner::Output(b) => b.base = base,
            BuiltinRunner::RangeCheck(b) => b.base = base,
        }
    }

    /// The values pushed for the program's start: a pointer to the base.
    pub fn initial_stack(&self) -> (r: Vec<MaybeRelocatable>)
        ensures
            r@ == seq![
                MaybeRelocatable::RelocatableValue(
                    Relocatable { segment_index: self.spec_base(), offset: 0 },
                ),
            ],
    {
        vec![MaybeRelocatable::RelocatableValue(Relocatable { segment_index: self.base(), offset: 0 })]
    }

    pub fn base(&self) -> (r: isize)
        ensures
            r == self.spec_base(),
    {
        match self {
            BuiltinRunner::Bitwise(b) => b.base(),
            BuiltinRunner::EcOp(b) => b.base(),
            BuiltinRunner::Hash(b) => b.base(),
            BuiltinRunner::Output(b) => b.base(),
            BuiltinRunner::RangeCheck(b) => b.base(),
        }
    }

    /// Steps per instance; the output builtin has none.
    pub fn ratio(&self) -> (r: Option<u32>)
        ensures
            r == match self {
                BuiltinRunner::Bitwise(b) => Some(b.ratio),
                BuiltinRunner::EcOp(b) => Some(b.ratio),
                BuiltinRunner::Hash(b) => Some(b.ratio),
                BuiltinRunner::Output(_) => None,
                BuiltinRunner::RangeCheck(b) => Some(b.ratio),
            },
    {
        match self {
            BuiltinRunner::Bitwise(b) => Some(b.ratio()),
            BuiltinRunner::EcOp(b) => Some(b.ratio()),
            BuiltinRunner::Hash(b) => Some(b.ratio()),
            BuiltinRunner::Output(_) => None,
            BuiltinRunner::RangeCheck(b) => Some(b.ratio()),
        }
    }

    /// Installs the builtin's validation rule, if its kind has one (only the
    /// range check does). Every kind but output needs a relocated base.
    pub fn add_validation_rule(&self, memory: &mut Memory) -> (r: Result<(), RunnerError>)
        ensures
            !(self is Output) && self.spec_base() < 0 ==> r == Err::<(), RunnerError>(
                RunnerError::RunnerInTemporarySegment(self.spec_base()),
            ) && *final(memory) == *old(memory),
            (self is Output || self.spec_base() >= 0) ==> r.is_ok(),
            !(self is RangeCheck) ==> *final(memory) == *old(memory),
            self is RangeCheck && self.spec_base() >= 0 ==> final(memory).validation_rules@
                == old(memory).validation_rules@.push(
                (self.spec_base() as usize, crate::memory::ValidationRule::RangeCheck),
            ),
            final(memory).data@ == old(memory).data@,
            final(memory).validated_addresses@ == old(memory).validated_addresses@,
    {
        match self {
            BuiltinRunner::RangeCheck(b) => b.add_validation_rule(memory),
            BuiltinRunner::Output(_) => Ok(()),
            _ => {
                let base = self.base();
                if base < 0 {
                    Err(RunnerError::RunnerInTemporarySegment(base))
                } else {
                    Ok(())
                }
            },
        }
    }

    /// The value of the cell at `address`, when this builtin can compute it.
    /// Range-check and output cells are never deduced. Nothing comes of an
    /// input cell, or of an instance with an input missing. The hash and curve
    /// arithmetic of the hash and elliptic-curve kinds is not part of this
    /// library: no value is computed for them here.
    pub fn deduce_memory_cell(&mut self, address: &Relocatable, memory: &Memory) -> (r: Result<
        Option<MaybeRelocatable>,
        RunnerError,
    >)
        requires
            old(self).wf(),
        ensures
            *final(self) == *old(self),
            (*old(self)) is Output || (*old(self)) is RangeCheck ==> r == Ok::<
                Option<MaybeRelocatable>,
                RunnerError,
            >(None),
            (*old(self)) is Hash || (*old(self)) is EcOp ==> {
                let cpi = old(self).spec_cells_per_instance();
                let nic = old(self).spec_n_input_cells();
                let index = address.offset as int % cpi;
                let first = address.offset as int - index;
                index < nic || (exists|o: int|
                    first <= o < first + nic && !(#[trigger] spec_cell(
                        memory.data@,
                        address.segment_index as int,
                        o,
                    ) matches Some(MaybeRelocatable::Int(_)))) ==> r == Ok::<
                    Option<MaybeRelocatable>,
                    RunnerError,
                >(None)
            },
            (*old(self)) is Bitwise ==> bitwise_deduction(
                old(self).spec_cells_per_instance(),
                old(self).spec_n_input_cells(),
                old(self)->Bitwise_0.total_n_bits,
                *address,
                *memory,
                r,
            ),
    {
        match self {
            BuiltinRunner::Bitwise(b) => b.deduce_memory_cell(address, memory),
            BuiltinRunner::RangeCheck(b) => b.deduce_memory_cell(address, memory),
            _ => Ok(None),
        }
    }

    /// Every address of the builtin's segment, in order.
    pub fn get_memory_accesses(&self, vm: &VirtualMachine) -> (r: Result<
        Vec<Relocatable>,
        MemoryError,
    >)
        ensures
            match r {
                Ok(v) => spec_used_cells(self.spec_base(), vm.segments) == Ok::<usize, MemoryError>(
                    v@.len() as usize,
                ) && forall|i: int|
                    0 <= i < v@.len() ==> #[trigger] v@[i] == (Relocatable {
                        segment_index: self.spec_base(),
                        offset: i as usize,
                    }),
                Err(e) => spec_used_cells(self.spec_base(), vm.segments) == Err::<usize, MemoryError>(
                    e,
                ),
            },
    {
        let base = self.base();
        let size = match used_cells(base, &vm.segments) {
            Ok(s) => s,
            Err(e) => return Err(e),
        };
        let mut v: Vec<Relocatable> = Vec::new();
        let mut i: usize = 0;
        while i < size
            invariant
                i <= size,
                v@.len() == i,
                forall|k: int|
                    0 <= k < i ==> #[trigger] v@[k] == (Relocatable {
                        segment_index: base,
                        offset: k as usize,
                    }),
            decreases size - i,
        {
            v.push(Relocatable { segment_index: base, offset: i });
            i = i + 1;
        }
        Ok(v)
    }

    /// The builtin's name, with its base and stop pointer.
    pub fn get_memory_segment_addresses(&self) -> (r: (&'static str, (isize, Option<usize>)))
        ensures
            r.0@ == match self {
                BuiltinRunner::Bitwise(_) => "bitwise"@,
                BuiltinRunner::EcOp(_) => "ec_op"@,
                BuiltinRunner::Hash(_) => "pedersen"@,
                BuiltinRunner::Output(_) => "output"@,
                BuiltinRunner::RangeCheck(_) => "range_check"@,
            },
            r.1 == match self {
                BuiltinRunner::Bitwise(b) => (b.base, b.stop_ptr),
                BuiltinRunner::EcOp(b) => (b.base, b.stop_ptr),
                BuiltinRunner::Hash(b) => (b.base, b.stop_ptr),
                BuiltinRunner::Output(b) => (b.base, b.stop_ptr),
                BuiltinRunner::RangeCheck(b) => (b.base, b.stop_ptr),
            },
    {
        proof {
            reveal_strlit("bitwise");
            reveal_strlit("ec_op");
            reveal_strlit("pedersen");
            reveal_strlit("output");
        }
        match self {
            BuiltinRunner::Bitwise(b) => ("bitwise", (b.base, b.stop_ptr)),
            BuiltinRunner::EcOp(b) => ("ec_op", (b.base, b.stop_ptr)),
            BuiltinRunner::Hash(b) => ("pedersen", (b.base, b.stop_ptr)),
            BuiltinRunner::Output(b) => ("output", (b.base, b.stop_ptr)),
            BuiltinRunner::RangeCheck(b) => b.get_memory_segment_addresses(),
        }
    }

    /// The number of cells used in the builtin's segment.
    pub fn get_used_cells(&self, vm: &VirtualMachine) -> (r: Result<usize, MemoryError>)
        ensures
            r == spec_used_cells(self.spec_base(), vm.segments),
    {
        match self {
            BuiltinRunner::RangeCheck(b) => b.get_used_cells(vm),
            _ => used_cells(self.base(), &vm.segments),
        }
    }

    /// The number of instances begun in the segment: used cells divided by the
    /// cells per instance, rounded up; one per cell for output and range check.
    pub fn get_used_instances(&self, vm: &VirtualMachine) -> (r: Result<usize, MemoryError>)
        requires
            self.wf(),
        ensures
            r == match spec_used_cells(self.spec_base(), vm.segments) {
                Err(e) => Err(e),
                Ok(used) => if self is Output || self is RangeCheck {
                    Ok(used)
                } else {
                    Ok(
                        ((used as int + self.spec_cells_per_instance() - 1)
                            / self.spec_cells_per_instance()) as usize,
                    )
                },
            },
    {
        let used = match self.get_used_cells(vm) {
            Ok(u) => u,
            Err(e) => return Err(e),
        };
        match self {
            BuiltinRunner::Bitwise(b) => Ok(div_ceil(used, b.cells_per_instance as usize)),
            BuiltinRunner::EcOp(b) => Ok(div_ceil(used, b.cells_per_instance as usize)),
            BuiltinRunner::Hash(b) => Ok(div_ceil(used, b.cells_per_instance as usize)),
            BuiltinRunner::Output(_) => Ok(used),
            BuiltinRunner::RangeCheck(_) => Ok(used),
        }
    }

    /// The smallest and largest range-check limb; `None` for every kind but range check.
    pub fn get_range_check_usage(&self, memory: &Memory) -> (r: Option<(usize, usize)>)
        ensures
            !(self is RangeCheck) ==> r.is_none(),
            self is RangeCheck ==> {
                let u = self->RangeCheck_0.spec_range_check_usage(*memory);
                &&& r.is_some() == u.is_some()
                &&& r.is_some() ==> r.unwrap().0 as int == u.unwrap().0 && r.unwrap().1 as int
                    == u.unwrap().1
            },
    {
        match self {
            BuiltinRunner::RangeCheck(b) => b.get_range_check_usage(memory),
            _ => None,
        }
    }

    /// Range-check units used: only the range-check builtin uses any.
    pub fn get_used_perm_range_check_units(&self, vm: &VirtualMachine) -> (r: Result<
        usize,
        MemoryError,
    >)
        ensures
            !(self is RangeCheck) ==> r == Ok::<usize, MemoryError>(0),
            self is RangeCheck ==> r == match spec_used_cells(self.spec_base(), vm.segments) {
                Err(e) => Err(e),
                Ok(used) => if used as int * self->RangeCheck_0.n_parts as int <= usize::MAX {
                    Ok((used as int * self->RangeCheck_0.n_parts as int) as usize)
                } else {
                    Err(MemoryError::ErrorCalculatingMemoryUnits)
                },
            },
    {
        match self {
            BuiltinRunner::RangeCheck(b) => b.get_used_perm_range_check_units(vm),
            _ => Ok(0),
        }
    }

    /// Diluted-check units used: only the bitwise builtin uses any.
    pub fn get_used_diluted_check_units(&self, diluted_spacing: u32, diluted_n_bits: u32) -> (r:
        usize)
        requires
            self is Bitwise ==> diluted_spacing > 0 && diluted_n_bits > 0 && 5
                * self->Bitwise_0.total_n_bits as int <= usize::MAX,
        ensures
            !(self is Bitwise) ==> r == 0,
            self is Bitwise ==> r as int == self->Bitwise_0.spec_diluted_units(
                diluted_spacing,
                diluted_n_bits,
            ),
    {
        match self {
            BuiltinRunner::Bitwise(b) => b.get_used_diluted_check_units(diluted_spacing, diluted_n_bits),
            _ => 0,
        }
    }

    /// Checks at the end of a run that every instance in the segment has its
    /// input cells (the output builtin always passes). When some non-input
    /// cell was not validated, asks the machine for a pass that re-checks
    /// the auto-deduced cells.
    pub fn run_security_checks(&self, vm: &mut VirtualMachine) -> (r: Result<(), VirtualMachineError>)
        requires
            self.wf(),
        ensures
            self is Output ==> r.is_ok() && *final(vm) == *old(vm),
            !(self is Output) ==> match spec_completeness(
                self.spec_cells_per_instance(),
                self.spec_n_input_cells(),
                self.spec_base(),
                old(vm).memory,
            ) {
                CompletenessOutcome::Complete { revalidate } => r.is_ok() && *final(vm) == (
                VirtualMachine {
                    auto_deduction_check_requested: old(vm).auto_deduction_check_requested
                        || revalidate,
                    ..*old(vm)
                }),
                o => *final(vm) == *old(vm) && match r {
                    Err(VirtualMachineError::MemoryError(e)) => reports(
                        Err(e),
                        self.spec_label(),
                        self.spec_base(),
                        o,
                    ),
                    _ => false,
                },
            },
    {
        let (cells_per_instance, n_input_cells, label) = match self {
            BuiltinRunner::Output(_) => return Ok(()),
            BuiltinRunner::Bitwise(b) => (b.cells_per_instance, b.n_input_cells, "bitwise"),
            BuiltinRunner::EcOp(b) => (b.cells_per_instance, b.n_input_cells, "ec_op"),
            BuiltinRunner::Hash(b) => (b.cells_per_instance, b.n_input_cells, "hash"),
            BuiltinRunner::RangeCheck(b) => (b.cells_per_instance, b.n_input_cells, "range_check"),
        };
        let base = self.base();
        match check_instances_complete(
            label,
            cells_per_instance as usize,
            n_input_cells as usize,
            base,
            &vm.memory,
        ) {
            Err(e) => Err(VirtualMachineError::from(e)),
            Ok(revalidate) => {
                if revalidate {
                    vm.auto_deduction_check_requested = true;
                }
                Ok(())
            },
        }
    }

    /// The used cells, and the cells the builtin may allocate after the current
    /// step (for output, the used cells again).
    pub fn get_used_cells_and_allocated_size(&self, vm: &VirtualMachine) -> (r: Result<
        (usize, usize),
        MemoryError,
    >)
        requires
            self.wf(),
        ensures
            r == match spec_used_cells(self.spec_base(), vm.segments) {
                Err(e) => Err(e),
                Ok(used) => match self {
                    BuiltinRunner::Output(_) => Ok((used, used)),
                    _ => match spec_allocated_cells(
                        self.spec_cells_per_instance() as u32,
                        self.ratio_or_zero(),
                        vm.current_step,
                    ) {
                        Some(size) => Ok((used, size)),
                        None => Err(MemoryError::InsufficientAllocatedCells),
                    },
                },
            },
    {
        match self {
            BuiltinRunner::RangeCheck(b) => b.get_used_cells_and_allocated_size(vm),
            BuiltinRunner::Output(b) => match used_cells(b.base, &vm.segments) {
                Ok(used) => Ok((used, used)),
                Err(e) => Err(e),
            },
            BuiltinRunner::Bitwise(b) => Self::used_and_allocated(b.base, b.cells_per_instance, b.ratio, vm),
            BuiltinRunner::EcOp(b) => Self::used_and_allocated(b.base, b.cells_per_instance, b.ratio, vm),
            BuiltinRunner::Hash(b) => Self::used_and_allocated(b.base, b.cells_per_instance, b.ratio, vm),
        }
    }

    pub open spec fn ratio_or_zero(&self) -> u32 {
        match self {
            BuiltinRunner::Bitwise(b) => b.ratio,
            BuiltinRunner::EcOp(b) => b.ratio,
            BuiltinRunner::Hash(b) => b.ratio,
            BuiltinRunner::Output(_) => 0,
            BuiltinRunner::RangeCheck(b) => b.ratio,
        }
    }

    fn used_and_allocated(base: isize, cells_per_instance: u32, ratio: u32, vm: &VirtualMachine) -> (r: Result<
        (usize, usize),
        MemoryError,
    >)
        ensures
            r == match spec_used_cells(base, vm.segments) {
                Err(e) => Err(e),
                Ok(used) => match spec_allocated_cells(cells_per_instance, ratio, vm.current_step) {
                    Some(size) => Ok((used, size)),
                    None => Err(MemoryError::InsufficientAllocatedCells),
                },
            },
    {
        let used = match used_cells(base, &vm.segments) {
            Ok(u) => u,
            Err(e) => return Err(e),
        };
        match allocated_cells(cells_per_instance, ratio, vm.current_step) {
            Some(size) => Ok((used, size)),
            None => Err(MemoryError::InsufficientAllocatedCells),
        }
    }
}

impl From<BitwiseBuiltinRunner> for BuiltinRunner {
    fn from(runner: BitwiseBuiltinRunner) -> (r: BuiltinRunner)
        ensures
            r == BuiltinRunner::Bitwise(runner),
    {
        BuiltinRunner::Bitwise(runner)
    }
}

impl vstd::std_specs::convert::FromSpecImpl<BitwiseBuiltinRunner> for BuiltinRunner {
    open spec fn obeys_from_spec() -> bool {
        true
    }

    open spec fn from_spec(runner: BitwiseBuiltinRunner) -> BuiltinRunner {
        BuiltinRunner::Bitwise(runner)
    }
}

impl From<EcOpBuiltinRunner> for BuiltinRunner {
    fn from(runner: EcOpBuiltinRunner) -> (r: BuiltinRunner)
        ensures
            r == BuiltinRunner::EcOp(runner),
    {
        BuiltinRunner::EcOp(runner)
    }
}

impl vstd::std_specs::convert::FromSpecImpl<EcOpBuiltinRunner> for BuiltinRunner {
    open spec fn obeys_from_spec() -> bool {
        true
    }

    open spec fn from_spec(runner: EcOpBuiltinRunner) -> BuiltinRunner {
        BuiltinRunner::EcOp(runner)
    }
}

impl From<HashBuiltinRunner> for BuiltinRunner {
    fn from(runner: HashBuiltinRunner) -> (r: BuiltinRunner)
        ensures
            r == BuiltinRunner::Hash(runner),
    {
        BuiltinRunner::Hash(runner)
    }
}

impl vstd::std_specs::convert::FromSpecImpl<HashBuiltinRunner> for BuiltinRunner {
    open spec fn obeys_from_spec() -> bool {
        true
    }

    open spec fn from_spec(runner: HashBuiltinRunner) -> BuiltinRunner {
        BuiltinRunner::Hash(runner)
    }
}

impl From<OutputBuiltinRunner> for BuiltinRunner {
    fn from(runner: OutputBuiltinRunner) -> (r: BuiltinRunner)
        ensures
            r == BuiltinRunner::Output(runner),
    {
        BuiltinRunner::Output(runner)
    }
}

impl vstd::std_specs::convert::FromSpecImpl<OutputBuiltinRunner> for BuiltinRunner {
    open spec fn obeys_from_spec() -> bool {
        true
    }

    open spec fn from_spec(runner: OutputBuiltinRunner) -> BuiltinRunner {
        BuiltinRunner::Output(runner)
    }
}

impl From<RangeCheckBuiltinRunner> for BuiltinRunner {
    fn from(runner: RangeCheckBuiltinRunner) -> (r: BuiltinRunner)
        ensures
            r == BuiltinRunner::RangeCheck(runner),
    {
        BuiltinRunner::RangeCheck(runner)
    }
}

impl vstd::std_specs::convert::FromSpecImpl<RangeCheckBuiltinRunner> for BuiltinRunner {
    open spec fn obeys_from_spec() -> bool {
        true
    }

    open spec fn from_spec(runner: RangeCheckBuiltinRunner) -> BuiltinRunner {
        BuiltinRunner::RangeCheck(runner)
    }
}

/// A builtin other than output whose base is a temporary segment fails the
/// security check with the temporary-segment error that cites the base.
pub proof fn lemma_security_check_temporary_base(b: BuiltinRunner, memory: Memory)
    requires
        b.wf(),
        !(b is Output),
        b.spec_base() < 0,
    ensures
        spec_completeness(b.spec_cells_per_instance(), b.spec_n_input_cells(), b.spec_base(), memory)
            == CompletenessOutcome::TemporarySegment,
        forall|r: Result<bool, MemoryError>|
            reports(r, b.spec_label(), b.spec_base(), CompletenessOutcome::TemporarySegment) <==> r
                == Err::<bool, MemoryError>(MemoryError::AddressInTemporarySegment(b.spec_base())),
{
}

/// With no data row for its segment, a builtin other than output fails the
/// security check with the missing-data error; with a row that exists but is
/// empty, it passes and asks for no re-verification.
pub proof fn lemma_security_check_data_row(b: BuiltinRunner, memory: Memory)
    requires
        b.wf(),
        !(b is Output),
        b.spec_base() >= 0,
    ensures
        b.spec_base() >= memory.data@.len() ==> spec_completeness(
            b.spec_cells_per_instance(),
            b.spec_n_input_cells(),
            b.spec_base(),
            memory,
        ) == CompletenessOutcome::NoDataRow,
        b.spec_base() < memory.data@.len() && memory.data@[b.spec_base() as int]@.len() == 0
            ==> spec_completeness(
            b.spec_cells_per_instance(),
            b.spec_n_input_cells(),
            b.spec_base(),
            memory,
        ) == (CompletenessOutcome::Complete { revalidate: false }),
{
    if b.spec_base() < memory.data@.len() && memory.data@[b.spec_base() as int]@.len() == 0 {
        let cpi = b.spec_cells_per_instance();
        let nic = b.spec_n_input_cells();
        let row = memory.data@[b.spec_base() as int]@;
        assert(address_offsets(row, 0).len() == 0);
        assert(0int / cpi == 0);
        assert(expected_offsets(0, cpi, nic).len() == 0);
    }
}

} // verus!
