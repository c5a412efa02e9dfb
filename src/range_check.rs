use crate::errors::{MemoryError, RunnerError};
use crate::felt::Felt;
use crate::memory::{Memory, MemorySegmentManager, ValidationRule, VirtualMachine};
use crate::relocatable::{opt_val, MaybeRelocatable, Relocatable};
use crate::segment_usage::{
    allocated_cells,
    spec_allocated_cells,
    spec_used_cells,
    used_cells,
};
use vstd::arithmetic::power::pow;
use vstd::prelude::*;

verus! {

/// Cells per range-check instance; every one of them is an input cell.
pub const CELLS_PER_RANGE_CHECK: u32 = 1;

/// The largest value accepted by the range-check rule, plus one.
pub open spec fn rc_bound() -> int {
    0x1_0000_0000_0000_0000_0000_0000_0000_0000int
}

/// The range-check rule: the cell holds an integer in `[0, 2^128)`.
pub open spec fn spec_range_check_rule(value: Option<MaybeRelocatable>) -> Result<(), MemoryError> {
    match value {
        Some(MaybeRelocatable::Int(n)) => if 0 <= n@ < rc_bound() {
            Ok(())
        } else {
            Err(MemoryError::NumOutOfBounds)
        },
        _ => Err(MemoryError::FoundNonInt),
    }
}

pub fn range_check_rule(value: Option<&MaybeRelocatable>) -> (r: Result<(), MemoryError>)
    ensures
        r == spec_range_check_rule(opt_val(value)),
{
    match value {
        Some(MaybeRelocatable::Int(n)) => match n.to_u128() {
            Some(_) => Ok(()),
            None => Err(MemoryError::NumOutOfBounds),
        },
        _ => Err(MemoryError::FoundNonInt),
    }
}

/// The lowest 16-bit limb of an integer cell (floor remainder modulo 2^16).
pub open spec fn spec_low_limb(c: Option<MaybeRelocatable>) -> Option<int> {
    match c {
        Some(MaybeRelocatable::Int(n)) => Some(n@ % 0x10000),
        _ => None,
    }
}

pub open spec fn all_int_cells(row: Seq<Option<MaybeRelocatable>>) -> bool {
    forall|i: int| 0 <= i < row.len() ==> spec_low_limb(#[trigger] row[i]).is_some()
}

pub open spec fn low_limbs(row: Seq<Option<MaybeRelocatable>>) -> Seq<int> {
    row.map_values(|c: Option<MaybeRelocatable>| spec_low_limb(c).unwrap())
}

pub open spec fn seq_min(s: Seq<int>) -> int
    decreases s.len(),
{
    if s.len() <= 1 {
        s[0]
    } else if s.last() < seq_min(s.drop_last()) {
        s.last()
    } else {
        seq_min(s.drop_last())
    }
}

pub open spec fn seq_max(s: Seq<int>) -> int
    decreases s.len(),
{
    if s.len() <= 1 {
        s[0]
    } else if s.last() > seq_max(s.drop_last()) {
        s.last()
    } else {
        seq_max(s.drop_last())
    }
}

/// The bound of one range-check limb.
pub const INNER_RC_BOUND: u128 = 0x10000;

/// The range-check builtin: every cell of its segment is an input, checked to lie
/// in `[0, 2^128)`; a value counts as `n_parts` limbs of 16 bits, so values
/// below `bound = inner_rc_bound^n_parts` are those its limbs can express.
#[derive(Debug)]
pub struct RangeCheckBuiltinRunner {
    pub ratio: u32,
    pub base: isize,
    pub stop_ptr: Option<usize>,
    pub cells_per_instance: u32,
    pub n_input_cells: u32,
    /// The bound of one limb, `2^16`.
    pub inner_rc_bound: Felt,
    /// The bound of a value made of `n_parts` limbs, `2^(16 * n_parts)`.
    pub bound: Felt,
    pub n_parts: u32,
}

impl RangeCheckBuiltinRunner {
    pub fn new(ratio: u32, n_parts: u32) -> (r: RangeCheckBuiltinRunner)
        ensures
            r.ratio == ratio,
            r.n_parts == n_parts,
            r.base == 0,
            r.stop_ptr.is_none(),
            r.cells_per_instance == CELLS_PER_RANGE_CHECK,
            r.n_input_cells == CELLS_PER_RANGE_CHECK,
            r.inner_rc_bound@ == 0x10000,
            r.bound@ == pow(0x10000, n_parts as nat),
            r.wf(),
    {
        RangeCheckBuiltinRunner {
            ratio,
            base: 0,
            stop_ptr: None,
            cells_per_instance: CELLS_PER_RANGE_CHECK,
            n_input_cells: CELLS_PER_RANGE_CHECK,
            inner_rc_bound: Felt::from_u128(INNER_RC_BOUND),
            bound: Felt::pow_2_16(n_parts),
            n_parts,
        }
    }

    /// One cell per instance, and it is an input.
    pub open spec fn wf(&self) -> bool {
        self.cells_per_instance == CELLS_PER_RANGE_CHECK && self.n_input_cells
            == CELLS_PER_RANGE_CHECK
    }

    /// Allocates the builtin's segment and records its index as the base.
    pub fn initialize_segments(&mut self, segments: &mut MemorySegmentManager, memory: &mut Memory)
        requires
            old(segments).num_segments < isize::MAX,
        ensures
            *final(self) == (RangeCheckBuiltinRunner {
                base: old(segments).num_segments as isize,
                ..*old(self)
            }),
            final(segments).num_segments == old(segments).num_segments + 1,
            final(segments).segment_used_sizes == old(segments).segment_used_sizes,
            final(memory).data@.drop_last() == old(memory).data@,
            final(memory).data@.len() == old(memory).data@.len() + 1,
            final(memory).data@.last()@.len() == 0,
            final(memory).validated_addresses@ == old(memory).validated_addresses@,
            final(memory).validation_rules@ == old(memory).validation_rules@,
    {
        self.base = segments.add(memory).segment_index;
    }

    /// A single pointer to the start of the segment.
    pub fn initial_stack(&self) -> (r: Vec<MaybeRelocatable>)
        ensures
            r@ == seq![MaybeRelocatable::RelocatableValue(Relocatable { segment_index: self.base, offset: 0 })],
    {
        vec![MaybeRelocatable::RelocatableValue(Relocatable { segment_index: self.base, offset: 0 })]
    }

    pub fn base(&self) -> (r: isize)
        ensures
            r == self.base,
    {
        self.base
    }

    pub fn ratio(&self) -> (r: u32)
        ensures
            r == self.ratio,
    {
        self.ratio
    }

    /// Installs the range-check rule on the builtin's segment.
    pub fn add_validation_rule(&self, memory: &mut Memory) -> (r: Result<(), RunnerError>)
        ensures
            self.base < 0 ==> r == Err::<(), RunnerError>(RunnerError::RunnerInTemporarySegment(self.base))
                && *final(memory) == *old(memory),
            self.base >= 0 ==> r.is_ok() && final(memory).validation_rules@
                == old(memory).validation_rules@.push((self.base as usize, ValidationRule::RangeCheck)),
            final(memory).data@ == old(memory).data@,
            final(memory).validated_addresses@ == old(memory).validated_addresses@,
    {
        if self.base < 0 {
            return Err(RunnerError::RunnerInTemporarySegment(self.base));
        }
        memory.add_validation_rule(self.base as usize, ValidationRule::RangeCheck);
        Ok(())
    }

    /// Range-check cells are never deduced: the program supplies each one.
    pub fn deduce_memory_cell(&self, _address: &Relocatable, _memory: &Memory) -> (r: Result<
        Option<MaybeRelocatable>,
        RunnerError,
    >)
        ensures
            r == Ok::<Option<MaybeRelocatable>, RunnerError>(None),
    {
        Ok(None)
    }

    /// Cells the builtin may allocate after the current step: one instance per
    /// `ratio` steps, where `ratio` must divide the step count exactly.
    pub fn get_allocated_memory_units(&self, vm: &VirtualMachine) -> (r: Result<usize, MemoryError>)
        requires
            self.wf(),
        ensures
            r == match spec_allocated_cells(self.cells_per_instance, self.ratio, vm.current_step) {
                Some(n) => Ok(n),
                None => Err(MemoryError::ErrorCalculatingMemoryUnits),
            },
    {
        match allocated_cells(self.cells_per_instance, self.ratio, vm.current_step) {
            Some(n) => Ok(n),
            None => Err(MemoryError::ErrorCalculatingMemoryUnits),
        }
    }

    pub fn get_memory_segment_addresses(&self) -> (r: (&'static str, (isize, Option<usize>)))
        ensures
            r.0@ == "range_check"@,
            r.1 == (self.base, self.stop_ptr),
    {
        proof {
            reveal_strlit("range_check");
        }
        ("range_check", (self.base, self.stop_ptr))
    }

    pub open spec fn spec_range_check_usage(&self, memory: Memory) -> Option<(int, int)> {
        if !(0 <= self.base < memory.data@.len()) {
            None
        } else {
            let row = memory.data@[self.base as int]@;
            if self.n_parts == 0 || row.len() == 0 || !all_int_cells(row) {
                None
            } else {
                Some((seq_min(low_limbs(row)), seq_max(low_limbs(row))))
            }
        }
    }

    /// The smallest and largest 16-bit limb over the cells of the segment.
    /// Each cell counts through its lowest limb, `value mod 2^16`, taken
    /// `n_parts` times. `None` when the segment is absent or empty, when
    /// `n_parts` is zero, or when a cell is unwritten or holds an address.
    pub fn get_range_check_usage(&self, memory: &Memory) -> (r: Option<(usize, usize)>)
        ensures
            r.is_some() == self.spec_range_check_usage(*memory).is_some(),
            r.is_some() ==> r.unwrap().0 as int == self.spec_range_check_usage(*memory).unwrap().0
                && r.unwrap().1 as int == self.spec_range_check_usage(*memory).unwrap().1,
    {
        if self.base < 0 || self.base as usize >= memory.data.len() || self.n_parts == 0 {
            return None;
        }
        let row = &memory.data[self.base as usize];
        let ghost srow = row@;
        assert(srow == memory.data@[self.base as int]@);
        let mut bounds: Option<(usize, usize)> = None;
        let mut k: usize = 0;
        while k < row.len()
            invariant
                srow == row@,
                srow == memory.data@[self.base as int]@,
                0 <= self.base < memory.data@.len(),
                self.n_parts > 0,
                k <= srow.len(),
                all_int_cells(srow.take(k as int)),
                k == 0 ==> bounds.is_none(),
                k > 0 ==> bounds.is_some() && bounds.unwrap().0 as int == seq_min(
                    low_limbs(srow.take(k as int)),
                ) && bounds.unwrap().1 as int == seq_max(low_limbs(srow.take(k as int))),
            decreases srow.len() - k,
        {
            let part: usize = match &row[k] {
                Some(MaybeRelocatable::Int(n)) => n.mod_floor_2_16() as usize,
                _ => {
                    proof {
                        assert(spec_low_limb(srow[k as int]).is_none());
                        assert(!all_int_cells(srow));
                    }
                    return None;
                },
            };
            let ghost prev = low_limbs(srow.take(k as int));
            bounds = match bounds {
                None => Some((part, part)),
                Some((lo, hi)) => Some(
                    (if part < lo { part } else { lo }, if part > hi { part } else { hi }),
                ),
            };
            k = k + 1;
            proof {
                let cur = low_limbs(srow.take(k as int));
                assert(cur.drop_last() =~= prev);
                assert(cur.last() == part as int);
                assert(all_int_cells(srow.take(k as int))) by {
                    assert forall|i: int| 0 <= i < k implies spec_low_limb(
                        #[trigger] srow.take(k as int)[i],
                    ).is_some() by {
                        if i < k - 1 {
                            assert(srow.take(k as int)[i] == srow.take(k - 1)[i]);
                        }
                    }
                }
            }
        }
        proof {
            assert(srow.take(srow.len() as int) =~= srow);
        }
        bounds
    }

    /// Cells used in the segment, one per instance.
    pub fn get_used_cells(&self, vm: &VirtualMachine) -> (r: Result<usize, MemoryError>)
        ensures
            r == spec_used_cells(self.base, vm.segments),
    {
        used_cells(self.base, &vm.segments)
    }

    /// The used cells, and the cells the builtin may allocate after the current step.
    pub fn get_used_cells_and_allocated_size(&self, vm: &VirtualMachine) -> (r: Result<
        (usize, usize),
        MemoryError,
    >)
        requires
            self.wf(),
        ensures
            r == match spec_used_cells(self.base, vm.segments) {
                Err(e) => Err(e),
                Ok(used) => match spec_allocated_cells(
                    self.cells_per_instance,
                    self.ratio,
                    vm.current_step,
                ) {
                    Some(size) => Ok((used, size)),
                    None => Err(MemoryError::InsufficientAllocatedCells),
                },
            },
    {
        let used = match used_cells(self.base, &vm.segments) {
            Ok(u) => u,
            Err(e) => return Err(e),
        };
        match allocated_cells(self.cells_per_instance, self.ratio, vm.current_step) {
            Some(size) => Ok((used, size)),
            None => Err(MemoryError::InsufficientAllocatedCells),
        }
    }

    /// Range-check units consumed: `n_parts` for each used cell.
    pub fn get_used_perm_range_check_units(&self, vm: &VirtualMachine) -> (r: Result<
        usize,
        MemoryError,
    >)
        ensures
            r == match spec_used_cells(self.base, vm.segments) {
                Err(e) => Err(e),
                Ok(used) => if used as int * self.n_parts as int <= usize::MAX {
                    Ok((used as int * self.n_parts as int) as usize)
                } else {
                    Err(MemoryError::ErrorCalculatingMemoryUnits)
                },
            },
    {
        let used = match used_cells(self.base, &vm.segments) {
            Ok(u) => u,
            Err(e) => return Err(e),
        };
        match used.checked_mul(self.n_parts as usize) {
            Some(units) => Ok(units),
            None => Err(MemoryError::ErrorCalculatingMemoryUnits),
        }
    }
}

} // verus!
