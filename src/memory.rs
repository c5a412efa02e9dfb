use crate::errors::MemoryError;
use crate::range_check::{range_check_rule, spec_range_check_rule};
use crate::relocatable::{opt_val, MaybeRelocatable, Relocatable};
use vstd::prelude::*;

verus! {

/// A predicate that a segment's cells must satisfy, fixed when it is installed.
#[derive(Debug, Clone, Copy, PartialEq, Eq, Structural)]
pub enum ValidationRule {
    /// The cell holds an integer in `[0, 2^128)`.
    RangeCheck,
}

impl ValidationRule {
    pub open spec fn spec_check(&self, value: Option<MaybeRelocatable>) -> Result<(), MemoryError> {
        match self {
            ValidationRule::RangeCheck => spec_range_check_rule(value),
        }
    }

    /// Applies the predicate to a cell's content (`None`: the cell is unwritten).
    pub fn check(&self, value: Option<&MaybeRelocatable>) -> (r: Result<(), MemoryError>)
        ensures
            r == self.spec_check(opt_val(value)),
    {
        match self {
            ValidationRule::RangeCheck => range_check_rule(value),
        }
    }
}

/// The cell at `offset` of row `segment`, if the row and the cell exist and are written.
pub open spec fn spec_cell(
    data: Seq<Vec<Option<MaybeRelocatable>>>,
    segment: int,
    offset: int,
) -> Option<MaybeRelocatable> {
    if 0 <= segment < data.len() && 0 <= offset < data[segment]@.len() {
        data[segment]@[offset]
    } else {
        None
    }
}

/// The rules among the first `k` of `rules` that cover `segment`, applied in
/// order to `value`: the first error, or whether any rule applied.
pub open spec fn apply_rules(
    rules: Seq<(usize, ValidationRule)>,
    segment: isize,
    value: Option<MaybeRelocatable>,
    k: int,
) -> Result<bool, MemoryError>
    decreases k,
{
    if k <= 0 {
        Ok(false)
    } else {
        match apply_rules(rules, segment, value, k - 1) {
            Err(e) => Err(e),
            Ok(applied) => if rules[k - 1].0 as int == segment as int {
                match rules[k - 1].1.spec_check(value) {
                    Err(e) => Err(e),
                    Ok(()) => Ok(true),
                }
            } else {
                Ok(applied)
            },
        }
    }
}

proof fn lemma_apply_rules_stops(
    rules: Seq<(usize, ValidationRule)>,
    segment: isize,
    value: Option<MaybeRelocatable>,
    k: int,
    m: int,
)
    requires
        0 <= k <= m,
        apply_rules(rules, segment, value, k) is Err,
    ensures
        apply_rules(rules, segment, value, m) == apply_rules(rules, segment, value, k),
    decreases m - k,
{
    if k < m {
        lemma_apply_rules_stops(rules, segment, value, k, m - 1);
    }
}

/// Sparse memory: one row of optional cells per segment, the installed validation
/// rules, and the addresses already found valid.
#[derive(Debug)]
pub struct Memory {
    pub data: Vec<Vec<Option<MaybeRelocatable>>>,
    pub validated_addresses: Vec<Relocatable>,
    pub validation_rules: Vec<(usize, ValidationRule)>,
}

impl Memory {
    pub fn new() -> (r: Memory)
        ensures
            r.data@.len() == 0,
            r.validated_addresses@.len() == 0,
            r.validation_rules@.len() == 0,
    {
        Memory { data: Vec::new(), validated_addresses: Vec::new(), validation_rules: Vec::new() }
    }

    /// Installs `rule` for the segment `segment_index`.
    pub fn add_validation_rule(&mut self, segment_index: usize, rule: ValidationRule)
        ensures
            final(self).validation_rules@ == old(self).validation_rules@.push((segment_index, rule)),
            final(self).data@ == old(self).data@,
            final(self).validated_addresses@ == old(self).validated_addresses@,
    {
        self.validation_rules.push((segment_index, rule));
    }

    /// The content of the cell at `addr`.
    pub fn get(&self, addr: &Relocatable) -> (r: Option<&MaybeRelocatable>)
        ensures
            opt_val(r) == spec_cell(self.data@, addr.segment_index as int, addr.offset as int),
    {
        if addr.segment_index < 0 {
            return None;
        }
        let segment = addr.segment_index as usize;
        if segment >= self.data.len() || addr.offset >= self.data[segment].len() {
            return None;
        }
        match &self.data[segment][addr.offset] {
            Some(v) => Some(v),
            None => None,
        }
    }

    /// Checks the cell at `addr` against the rules installed for its segment,
    /// unless it was already found valid, and records it as valid when at
    /// least one rule applies and all of them accept it.
    pub fn validate_memory_cell(&mut self, addr: &Relocatable) -> (r: Result<(), MemoryError>)
        ensures
            final(self).data@ == old(self).data@,
            final(self).validation_rules@ == old(self).validation_rules@,
            old(self).validated_addresses@.contains(*addr) ==> r.is_ok()
                && final(self).validated_addresses@ == old(self).validated_addresses@,
            !old(self).validated_addresses@.contains(*addr) ==> match apply_rules(
                old(self).validation_rules@,
                addr.segment_index,
                spec_cell(old(self).data@, addr.segment_index as int, addr.offset as int),
                old(self).validation_rules@.len() as int,
            ) {
                Err(e) => r == Err::<(), MemoryError>(e) && final(self).validated_addresses@
                    == old(self).validated_addresses@,
                Ok(applied) => r.is_ok() && final(self).validated_addresses@ == if applied {
                    old(self).validated_addresses@.push(*addr)
                } else {
                    old(self).validated_addresses@
                },
            },
    {
        if self.is_validated(addr) {
            return Ok(());
        }
        let ghost value = spec_cell(self.data@, addr.segment_index as int, addr.offset as int);
        let mut applied = false;
        let mut k: usize = 0;
        while k < self.validation_rules.len()
            invariant
                *self == *old(self),
                !old(self).validated_addresses@.contains(*addr),
                value == spec_cell(self.data@, addr.segment_index as int, addr.offset as int),
                k <= self.validation_rules@.len(),
                apply_rules(self.validation_rules@, addr.segment_index, value, k as int) == Ok::<
                    bool,
                    MemoryError,
                >(applied),
            decreases self.validation_rules@.len() - k,
        {
            let (segment, rule) = self.validation_rules[k];
            if segment <= isize::MAX as usize && segment as isize == addr.segment_index {
                match rule.check(self.get(addr)) {
                    Err(e) => {
                        proof {
                            lemma_apply_rules_stops(
                                self.validation_rules@,
                                addr.segment_index,
                                value,
                                k as int + 1,
                                self.validation_rules@.len() as int,
                            );
                        }
                        return Err(e);
                    },
                    Ok(()) => {
                        applied = true;
                    },
                }
            }
            k = k + 1;
        }
        if applied {
            self.validated_addresses.push(*addr);
        }
        Ok(())
    }

    /// Whether `addr` was already found valid.
    pub fn is_validated(&self, addr: &Relocatable) -> (r: bool)
        ensures
            r == self.validated_addresses@.contains(*addr),
    {
        let mut i: usize = 0;
        while i < self.validated_addresses.len()
            invariant
                forall|k: int| 0 <= k < i ==> self.validated_addresses@[k] != *addr,
            decreases self.validated_addresses@.len() - i,
        {
            if self.validated_addresses[i] == *addr {
                return true;
            }
            i = i + 1;
        }
        false
    }
}

/// Allocation of segments and their sizes once computed.
#[derive(Debug)]
pub struct MemorySegmentManager {
    pub num_segments: usize,
    pub segment_used_sizes: Option<Vec<usize>>,
}

/// The size of segment `index`, if sizes are known and the segment has one.
pub open spec fn spec_segment_size(sizes: Option<Vec<usize>>, index: int) -> Option<usize> {
    match sizes {
        Some(v) => if 0 <= index < v@.len() {
            Some(v@[index])
        } else {
            None
        },
        None => None,
    }
}

impl MemorySegmentManager {
    pub fn new() -> (r: MemorySegmentManager)
        ensures
            r.num_segments == 0,
            r.segment_used_sizes.is_none(),
    {
        MemorySegmentManager { num_segments: 0, segment_used_sizes: None }
    }

    /// Allocates a new, empty segment and returns its first address.
    pub fn add(&mut self, memory: &mut Memory) -> (r: Relocatable)
        requires
            old(self).num_segments < isize::MAX,
        ensures
            r == (Relocatable { segment_index: old(self).num_segments as isize, offset: 0 }),
            final(self).num_segments == old(self).num_segments + 1,
            final(self).segment_used_sizes == old(self).segment_used_sizes,
            final(memory).data@.len() == old(memory).data@.len() + 1,
            final(memory).data@.drop_last() == old(memory).data@,
            final(memory).data@.last()@.len() == 0,
            final(memory).validated_addresses@ == old(memory).validated_addresses@,
            final(memory).validation_rules@ == old(memory).validation_rules@,
    {
        let segment_index = self.num_segments as isize;
        self.num_segments = self.num_segments + 1;
        memory.data.push(Vec::new());
        proof {
            assert(memory.data@.drop_last() =~= old(memory).data@);
        }
        Relocatable { segment_index, offset: 0 }
    }

    /// The size of the segment `index`, if known.
    pub fn get_segment_size(&self, index: usize) -> (r: Option<usize>)
        ensures
            r == spec_segment_size(self.segment_used_sizes, index as int),
    {
        match &self.segment_used_sizes {
            Some(v) => if index < v.len() {
                Some(v[index])
            } else {
                None
            },
            None => None,
        }
    }
}

/// The parts of the virtual machine that the builtin runners read and update.
#[derive(Debug)]
pub struct VirtualMachine {
    pub current_step: usize,
    pub memory: Memory,
    pub segments: MemorySegmentManager,
    /// Set when a pass that re-checks every auto-deduced cell must be run.
    pub auto_deduction_check_requested: bool,
}

impl VirtualMachine {
    pub fn new() -> (r: VirtualMachine)
        ensures
            r.current_step == 0,
            r.memory.data@.len() == 0,
            r.memory.validated_addresses@.len() == 0,
            r.memory.validation_rules@.len() == 0,
            r.segments.num_segments == 0,
            r.segments.segment_used_sizes.is_none(),
            !r.auto_deduction_check_requested,
    {
        VirtualMachine {
            current_step: 0,
            memory: Memory::new(),
            segments: MemorySegmentManager::new(),
            auto_deduction_check_requested: false,
        }
    }
}

} // verus!
