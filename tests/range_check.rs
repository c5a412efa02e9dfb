use builtin_runners::errors::{MemoryError, RunnerError};
use builtin_runners::felt::Felt;
use builtin_runners::memory::{Memory, MemorySegmentManager, ValidationRule, VirtualMachine};
use builtin_runners::range_check::RangeCheckBuiltinRunner;
use builtin_runners::relocatable::{MaybeRelocatable, Relocatable};
use builtin_runners::runner::BuiltinRunner;

fn memory_of(values: &[u128]) -> Memory {
    let mut memory = Memory::new();
    memory.data = vec![values
        .iter()
        .map(|v| Some(MaybeRelocatable::Int(Felt::from_u128(*v))))
        .collect()];
    memory
}

#[test]
fn get_allocated_memory_units() {
    let builtin = RangeCheckBuiltinRunner::new(10, 12);
    let mut vm = VirtualMachine::new();
    // The state after a run of ten steps.
    vm.current_step = 10;
    assert_eq!(builtin.get_allocated_memory_units(&vm), Ok(1));
}

#[test]
fn get_allocated_memory_units_inexact_division() {
    let builtin = RangeCheckBuiltinRunner::new(10, 12);
    let mut vm = VirtualMachine::new();
    vm.current_step = 15;
    assert_eq!(
        builtin.get_allocated_memory_units(&vm),
        Err(MemoryError::ErrorCalculatingMemoryUnits),
    );
    vm.current_step = 30;
    assert_eq!(builtin.get_allocated_memory_units(&vm), Ok(3));
}

#[test]
fn initialize_segments_for_range_check() {
    let mut builtin = RangeCheckBuiltinRunner::new(8, 8);
    let mut segments = MemorySegmentManager::new();
    let mut memory = Memory::new();
    builtin.initialize_segments(&mut segments, &mut memory);
    assert_eq!(builtin.base, 0);
}

#[test]
fn get_initial_stack_for_range_check_with_base() {
    let mut builtin = RangeCheckBuiltinRunner::new(8, 8);
    builtin.base = 1;
    let initial_stack = builtin.initial_stack();
    assert_eq!(
        initial_stack[0].clone(),
        MaybeRelocatable::RelocatableValue(Relocatable::new(builtin.base(), 0))
    );
    assert_eq!(initial_stack.len(), 1);
}

#[test]
fn get_memory_segment_addresses() {
    let builtin = RangeCheckBuiltinRunner::new(8, 8);
    assert_eq!(
        builtin.get_memory_segment_addresses(),
        ("range_check", (0, None)),
    );
}

#[test]
fn range_check_get_memory_accesses_missing_segment_used_sizes() {
    let builtin = BuiltinRunner::RangeCheck(RangeCheckBuiltinRunner::new(256, 8));
    let vm = VirtualMachine::new();
    assert_eq!(
        builtin.get_memory_accesses(&vm),
        Err(MemoryError::MissingSegmentUsedSizes),
    );
}

#[test]
fn range_check_get_memory_accesses_empty() {
    let builtin = BuiltinRunner::RangeCheck(RangeCheckBuiltinRunner::new(256, 8));
    let mut vm = VirtualMachine::new();
    vm.segments.segment_used_sizes = Some(vec![0]);
    assert_eq!(builtin.get_memory_accesses(&vm), Ok(vec![]));
}

#[test]
fn range_check_get_memory_accesses() {
    let builtin = BuiltinRunner::RangeCheck(RangeCheckBuiltinRunner::new(256, 8));
    let mut vm = VirtualMachine::new();
    vm.segments.segment_used_sizes = Some(vec![4]);
    assert_eq!(
        builtin.get_memory_accesses(&vm),
        Ok(vec![
            Relocatable::new(builtin.base(), 0),
            Relocatable::new(builtin.base(), 1),
            Relocatable::new(builtin.base(), 2),
            Relocatable::new(builtin.base(), 3),
        ]),
    );
}

#[test]
fn get_memory_accesses_temporary_segment() {
    let mut range_check = RangeCheckBuiltinRunner::new(256, 8);
    range_check.base = -1;
    let builtin = BuiltinRunner::RangeCheck(range_check);
    let mut vm = VirtualMachine::new();
    vm.segments.segment_used_sizes = Some(vec![4]);
    assert_eq!(
        builtin.get_memory_accesses(&vm),
        Err(MemoryError::AddressInTemporarySegment(-1)),
    );
}

#[test]
fn get_used_cells_missing_segment_used_sizes() {
    let builtin = BuiltinRunner::RangeCheck(RangeCheckBuiltinRunner::new(256, 8));
    let vm = VirtualMachine::new();
    assert_eq!(
        builtin.get_used_cells(&vm),
        Err(MemoryError::MissingSegmentUsedSizes)
    );
}

#[test]
fn get_used_cells_empty() {
    let builtin = BuiltinRunner::RangeCheck(RangeCheckBuiltinRunner::new(256, 8));
    let mut vm = VirtualMachine::new();
    vm.segments.segment_used_sizes = Some(vec![0]);
    assert_eq!(builtin.get_used_cells(&vm), Ok(0));
}

#[test]
fn get_used_cells() {
    let builtin = BuiltinRunner::RangeCheck(RangeCheckBuiltinRunner::new(256, 8));
    let mut vm = VirtualMachine::new();
    vm.segments.segment_used_sizes = Some(vec![4]);
    assert_eq!(builtin.get_used_cells(&vm), Ok(4));
}

#[test]
fn get_range_check_usage_succesful_a() {
    let builtin = RangeCheckBuiltinRunner::new(8, 8);
    let memory = memory_of(&[1, 2, 3, 4]);
    assert_eq!(builtin.get_range_check_usage(&memory), Some((1, 4)));
}

#[test]
fn get_range_check_usage_succesful_b() {
    let builtin = RangeCheckBuiltinRunner::new(8, 8);
    let memory = memory_of(&[1465218365, 2134570341, 31349610736, 413468326585859]);
    assert_eq!(builtin.get_range_check_usage(&memory), Some((6384, 62821)));
}

#[test]
fn get_range_check_usage_succesful_c() {
    let builtin = RangeCheckBuiltinRunner::new(8, 8);
    let memory = memory_of(&[
        634834751465218365,
        42876922134570341,
        23469831349610736,
        23468413468326585859,
        75346043276073460326,
        87234598724867609478353436890268,
    ]);
    assert_eq!(builtin.get_range_check_usage(&memory), Some((10480, 42341)));
}

#[test]
fn get_range_check_empty_memory() {
    let builtin = RangeCheckBuiltinRunner::new(8, 8);
    let memory = Memory::new();
    assert_eq!(builtin.get_range_check_usage(&memory), None);
}

#[test]
fn get_range_check_usage_unwritten_or_address_cell() {
    let builtin = RangeCheckBuiltinRunner::new(8, 8);
    let mut memory = memory_of(&[1, 2]);
    memory.data[0].push(None);
    assert_eq!(builtin.get_range_check_usage(&memory), None);
    let mut memory = memory_of(&[1, 2]);
    memory.data[0].push(Some(MaybeRelocatable::RelocatableValue(Relocatable::new(0, 0))));
    assert_eq!(builtin.get_range_check_usage(&memory), None);
    let no_parts = RangeCheckBuiltinRunner::new(8, 0);
    assert_eq!(no_parts.get_range_check_usage(&memory_of(&[1, 2])), None);
}

#[test]
fn get_range_check_usage_negative_value() {
    let builtin = RangeCheckBuiltinRunner::new(8, 8);
    let mut memory = Memory::new();
    memory.data = vec![vec![
        Some(MaybeRelocatable::Int(Felt::from_parts(true, vec![1]))),
        Some(MaybeRelocatable::Int(Felt::from_u128(7))),
    ]];
    assert_eq!(builtin.get_range_check_usage(&memory), Some((7, 65535)));
}

#[test]
fn add_validation_rule_installs_range_rule() {
    let builtin = RangeCheckBuiltinRunner::new(8, 8);
    let mut memory = Memory::new();
    assert_eq!(builtin.add_validation_rule(&mut memory), Ok(()));
    assert_eq!(memory.validation_rules, vec![(0, ValidationRule::RangeCheck)]);
    let mut temporary = RangeCheckBuiltinRunner::new(8, 8);
    temporary.base = -1;
    assert_eq!(
        temporary.add_validation_rule(&mut memory),
        Err(RunnerError::RunnerInTemporarySegment(-1)),
    );
}

#[test]
fn range_check_rule_bounds() {
    let rule = ValidationRule::RangeCheck;
    let below = MaybeRelocatable::Int(Felt::from_u128(u128::MAX));
    assert_eq!(rule.check(Some(&below)), Ok(()));
    let zero = MaybeRelocatable::Int(Felt::from_u128(0));
    assert_eq!(rule.check(Some(&zero)), Ok(()));
    let bound = MaybeRelocatable::Int(Felt::from_parts(false, vec![0, 0, 1]));
    assert_eq!(rule.check(Some(&bound)), Err(MemoryError::NumOutOfBounds));
    let negative = MaybeRelocatable::Int(Felt::from_parts(true, vec![5]));
    assert_eq!(rule.check(Some(&negative)), Err(MemoryError::NumOutOfBounds));
    let address = MaybeRelocatable::RelocatableValue(Relocatable::new(0, 0));
    assert_eq!(rule.check(Some(&address)), Err(MemoryError::FoundNonInt));
    assert_eq!(rule.check(None), Err(MemoryError::FoundNonInt));
}

#[test]
fn felt_conversions() {
    assert_eq!(Felt::from_u128(1 << 70).to_u128(), Some(1 << 70));
    assert_eq!(Felt::from_parts(true, vec![0, 0]).to_u128(), Some(0));
    assert_eq!(Felt::from_parts(false, vec![3, 0, 0]).to_u128(), Some(3));
    assert_eq!(Felt::from_parts(false, vec![0x1_0003, 9]).mod_floor_2_16(), 3);
    assert_eq!(Felt::from_parts(true, vec![0x1_0003]).mod_floor_2_16(), 65533);
    assert_eq!(Felt::from_parts(true, vec![0x2_0000]).mod_floor_2_16(), 0);
}

#[test]
fn used_cells_and_perm_units_of_range_check() {
    let builtin = RangeCheckBuiltinRunner::new(8, 8);
    let mut vm = VirtualMachine::new();
    vm.current_step = 16;
    vm.segments.segment_used_sizes = Some(vec![5]);
    assert_eq!(builtin.get_used_cells_and_allocated_size(&vm), Ok((5, 2)));
    assert_eq!(builtin.get_used_perm_range_check_units(&vm), Ok(40));
    vm.segments.segment_used_sizes = Some(vec![usize::MAX]);
    assert_eq!(
        builtin.get_used_perm_range_check_units(&vm),
        Err(MemoryError::ErrorCalculatingMemoryUnits),
    );
}

#[test]
fn validate_memory_cell_applies_installed_rule() {
    let builtin = RangeCheckBuiltinRunner::new(8, 8);
    let mut memory = Memory::new();
    memory.data = vec![
        vec![
            Some(MaybeRelocatable::Int(Felt::from_u128(5))),
            Some(MaybeRelocatable::Int(Felt::from_parts(false, vec![0, 0, 1]))),
            Some(MaybeRelocatable::RelocatableValue(Relocatable::new(1, 0))),
        ],
        vec![Some(MaybeRelocatable::RelocatableValue(Relocatable::new(0, 0)))],
    ];
    builtin.add_validation_rule(&mut memory).unwrap();
    assert_eq!(memory.validate_memory_cell(&Relocatable::new(0, 0)), Ok(()));
    assert_eq!(memory.validated_addresses, vec![Relocatable::new(0, 0)]);
    assert_eq!(
        memory.validate_memory_cell(&Relocatable::new(0, 1)),
        Err(MemoryError::NumOutOfBounds),
    );
    assert_eq!(
        memory.validate_memory_cell(&Relocatable::new(0, 2)),
        Err(MemoryError::FoundNonInt),
    );
    assert_eq!(memory.validate_memory_cell(&Relocatable::new(1, 0)), Ok(()));
    assert_eq!(memory.validated_addresses, vec![Relocatable::new(0, 0)]);
}

#[test]
fn felt_constructors_are_canonical() {
    assert_eq!(Felt::from_u128(5), Felt::from_parts(false, vec![5, 0, 0]));
    assert_eq!(Felt::from_u128(0), Felt::from_parts(true, vec![0, 0]));
    assert_eq!(Felt::from_u128(0).limbs, Vec::<u64>::new());
    assert!(Felt::from_parts(true, vec![4, 0]).negative);
}

#[test]
fn new_sets_limb_bounds() {
    let builtin = RangeCheckBuiltinRunner::new(8, 8);
    assert_eq!(builtin.inner_rc_bound, Felt::from_u128(65536));
    assert_eq!(builtin.bound, Felt::from_parts(false, vec![0, 0, 1]));
    assert_eq!(RangeCheckBuiltinRunner::new(8, 3).bound, Felt::from_u128(1 << 48));
    assert_eq!(RangeCheckBuiltinRunner::new(8, 4).bound, Felt::from_parts(false, vec![0, 1]));
    assert_eq!(RangeCheckBuiltinRunner::new(8, 0).bound, Felt::from_u128(1));
    assert_eq!(
        RangeCheckBuiltinRunner::new(8, 13).bound,
        Felt::from_parts(false, vec![0, 0, 0, 1 << 16]),
    );
}
