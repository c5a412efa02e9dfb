use builtin_runners::bitwise::{BitwiseBuiltinRunner, BitwiseInstanceDef};
use builtin_runners::ec_op::{EcOpBuiltinRunner, EcOpInstanceDef};
use builtin_runners::errors::{MemoryError, VirtualMachineError};
use builtin_runners::felt::Felt;
use builtin_runners::hash::HashBuiltinRunner;
use builtin_runners::memory::{Memory, VirtualMachine};
use builtin_runners::output::OutputBuiltinRunner;
use builtin_runners::range_check::RangeCheckBuiltinRunner;
use builtin_runners::relocatable::{MaybeRelocatable, Relocatable};
use builtin_runners::runner::BuiltinRunner;

fn int_cell(v: u128) -> Option<MaybeRelocatable> {
    Some(MaybeRelocatable::Int(Felt::from_u128(v)))
}

fn addr_cell(segment_index: isize, offset: usize) -> Option<MaybeRelocatable> {
    Some(MaybeRelocatable::RelocatableValue(Relocatable::new(segment_index, offset)))
}

fn memory_of(values: &[u128]) -> Memory {
    let mut memory = Memory::new();
    memory.data = vec![values.iter().map(|v| int_cell(*v)).collect()];
    memory
}

fn default_bitwise() -> BuiltinRunner {
    BitwiseBuiltinRunner::new(&BitwiseInstanceDef::default(), true).into()
}

#[test]
fn mod_get_memory_accesses_missing_segment_used_sizes() {
    let builtin = default_bitwise();
    let vm = VirtualMachine::new();
    assert_eq!(
        builtin.get_memory_accesses(&vm),
        Err(MemoryError::MissingSegmentUsedSizes),
    );
}

#[test]
fn mod_get_memory_accesses_empty() {
    let builtin = default_bitwise();
    let mut vm = VirtualMachine::new();
    vm.segments.segment_used_sizes = Some(vec![0]);
    assert_eq!(builtin.get_memory_accesses(&vm), Ok(vec![]));
}

#[test]
fn mod_get_memory_accesses() {
    let builtin = default_bitwise();
    let mut vm = VirtualMachine::new();
    vm.segments.segment_used_sizes = Some(vec![4]);
    assert_eq!(
        builtin.get_memory_accesses(&vm),
        Ok(vec![
            Relocatable::new(builtin.base(), 0),
            Relocatable::new(builtin.base(), 1),
            Relocatable::new(builtin.base(), 2),
            Relocatable::new(builtin.base(), 3),
        ]),
    );
}

#[test]
fn get_range_check_usage_range_check() {
    let builtin = BuiltinRunner::RangeCheck(RangeCheckBuiltinRunner::new(8, 8));
    let memory = memory_of(&[1, 2, 3, 4]);
    assert_eq!(builtin.get_range_check_usage(&memory), Some((1, 4)));
}

#[test]
fn get_range_check_usage_output() {
    let builtin = BuiltinRunner::Output(OutputBuiltinRunner::new(true));
    let memory = memory_of(&[1, 2, 3, 4]);
    assert_eq!(builtin.get_range_check_usage(&memory), None);
}

#[test]
fn get_range_check_usage_hash() {
    let builtin = BuiltinRunner::Hash(HashBuiltinRunner::new(256, true));
    let memory = memory_of(&[1, 2, 3, 4]);
    assert_eq!(builtin.get_range_check_usage(&memory), None);
}

#[test]
fn get_range_check_usage_ec_op() {
    let builtin = BuiltinRunner::EcOp(EcOpBuiltinRunner::new(&EcOpInstanceDef::default(), true));
    let memory = memory_of(&[1, 2, 3, 4]);
    assert_eq!(builtin.get_range_check_usage(&memory), None);
}

#[test]
fn get_range_check_usage_bitwise() {
    let builtin = default_bitwise();
    let memory = memory_of(&[1, 2, 3, 4]);
    assert_eq!(builtin.get_range_check_usage(&memory), None);
}

#[test]
fn get_used_diluted_check_units_bitwise() {
    let builtin = default_bitwise();
    assert_eq!(builtin.get_used_diluted_check_units(270, 7), 1255);
}

#[test]
fn get_used_diluted_check_units_ec_op() {
    let builtin = BuiltinRunner::EcOp(EcOpBuiltinRunner::new(&EcOpInstanceDef::new(10), true));
    assert_eq!(builtin.get_used_diluted_check_units(270, 7), 0);
}

#[test]
fn get_used_diluted_check_units_hash() {
    let builtin = BuiltinRunner::Hash(HashBuiltinRunner::new(16, true));
    assert_eq!(builtin.get_used_diluted_check_units(270, 7), 0);
}

#[test]
fn get_used_diluted_check_units_range_check() {
    let builtin = BuiltinRunner::RangeCheck(RangeCheckBuiltinRunner::new(8, 8));
    assert_eq!(builtin.get_used_diluted_check_units(270, 7), 0);
}

#[test]
fn get_used_diluted_check_units_output() {
    let builtin = BuiltinRunner::Output(OutputBuiltinRunner::new(true));
    assert_eq!(builtin.get_used_diluted_check_units(270, 7), 0);
}

#[test]
fn get_memory_segment_addresses_test() {
    let bitwise_builtin = default_bitwise();
    assert_eq!(
        bitwise_builtin.get_memory_segment_addresses(),
        ("bitwise", (0, None)),
    );
    let ec_op_builtin: BuiltinRunner =
        EcOpBuiltinRunner::new(&EcOpInstanceDef::default(), true).into();
    assert_eq!(
        ec_op_builtin.get_memory_segment_addresses(),
        ("ec_op", (0, None)),
    );
    let hash_builtin: BuiltinRunner = HashBuiltinRunner::new(8, true).into();
    assert_eq!(
        hash_builtin.get_memory_segment_addresses(),
        ("pedersen", (0, None)),
    );
    let output_builtin: BuiltinRunner = OutputBuiltinRunner::new(true).into();
    assert_eq!(
        output_builtin.get_memory_segment_addresses(),
        ("output", (0, None)),
    );
    let range_check_builtin: BuiltinRunner =
        BuiltinRunner::RangeCheck(RangeCheckBuiltinRunner::new(8, 8));
    assert_eq!(
        range_check_builtin.get_memory_segment_addresses(),
        ("range_check", (0, None)),
    );
}

#[test]
fn run_security_checks_for_output() {
    let builtin = BuiltinRunner::Output(OutputBuiltinRunner::new(true));
    let mut vm = VirtualMachine::new();
    assert_eq!(builtin.run_security_checks(&mut vm), Ok(()));
}

#[test]
fn run_security_checks_empty_memory() {
    let builtin = default_bitwise();
    let mut vm = VirtualMachine::new();
    assert_eq!(
        builtin.run_security_checks(&mut vm),
        Err(MemoryError::NumOutOfBounds.into()),
    );
}

#[test]
fn run_security_checks_temporary_segment() {
    let builtin = BuiltinRunner::Bitwise({
        let mut builtin = BitwiseBuiltinRunner::new(&BitwiseInstanceDef::default(), true);
        builtin.base = -1;
        builtin
    });
    let mut vm = VirtualMachine::new();
    assert_eq!(
        builtin.run_security_checks(&mut vm),
        Err(MemoryError::AddressInTemporarySegment(-1).into()),
    );
}

#[test]
fn run_security_checks_empty_offsets() {
    let builtin = default_bitwise();
    let mut vm = VirtualMachine::new();
    vm.memory.data = vec![vec![]];
    assert_eq!(builtin.run_security_checks(&mut vm), Ok(()));
    assert!(!vm.auto_deduction_check_requested);
}

#[test]
fn run_security_checks_missing_memory_cells() {
    let builtin = default_bitwise();
    let mut vm = VirtualMachine::new();
    vm.memory.data = vec![vec![
        None,
        addr_cell(0, 1),
        addr_cell(0, 2),
        addr_cell(0, 3),
        addr_cell(0, 4),
        addr_cell(0, 5),
    ]];
    assert_eq!(
        builtin.run_security_checks(&mut vm),
        Err(MemoryError::MissingMemoryCellsWithOffsets("bitwise", vec![0]).into()),
    );
}

#[test]
fn get_used_perm_range_check_units_bitwise() {
    let builtin_runner = default_bitwise();
    let mut vm = VirtualMachine::new();
    vm.current_step = 8;
    vm.segments.segment_used_sizes = Some(vec![5]);
    assert_eq!(builtin_runner.get_used_perm_range_check_units(&vm), Ok(0));
}

#[test]
fn get_used_perm_range_check_units_ec_op() {
    let builtin_runner: BuiltinRunner =
        EcOpBuiltinRunner::new(&EcOpInstanceDef::default(), true).into();
    let mut vm = VirtualMachine::new();
    vm.current_step = 8;
    vm.segments.segment_used_sizes = Some(vec![5]);
    assert_eq!(builtin_runner.get_used_perm_range_check_units(&vm), Ok(0));
}

#[test]
fn get_used_perm_range_check_units_hash() {
    let builtin_runner: BuiltinRunner = HashBuiltinRunner::new(8, true).into();
    let mut vm = VirtualMachine::new();
    vm.current_step = 8;
    vm.segments.segment_used_sizes = Some(vec![5]);
    assert_eq!(builtin_runner.get_used_perm_range_check_units(&vm), Ok(0));
}

#[test]
fn get_used_perm_range_check_units_output() {
    let builtin_runner: BuiltinRunner = OutputBuiltinRunner::new(true).into();
    let mut vm = VirtualMachine::new();
    vm.current_step = 8;
    vm.segments.segment_used_sizes = Some(vec![5]);
    assert_eq!(builtin_runner.get_used_perm_range_check_units(&vm), Ok(0));
}

#[test]
fn get_used_perm_range_check_units_range_check() {
    let builtin_runner: BuiltinRunner = RangeCheckBuiltinRunner::new(8, 8).into();
    let mut vm = VirtualMachine::new();
    vm.current_step = 8;
    vm.segments.segment_used_sizes = Some(vec![5]);
    assert_eq!(builtin_runner.get_used_perm_range_check_units(&vm), Ok(40));
}

#[test]
fn run_security_checks_complete_instance_requests_revalidation() {
    let builtin: BuiltinRunner = HashBuiltinRunner::new(8, true).into();
    let mut vm = VirtualMachine::new();
    vm.memory.data = vec![vec![addr_cell(0, 1), addr_cell(0, 2), addr_cell(0, 3)]];
    assert_eq!(builtin.run_security_checks(&mut vm), Ok(()));
    assert!(vm.auto_deduction_check_requested);
}

#[test]
fn run_security_checks_validated_outputs_need_no_revalidation() {
    let builtin: BuiltinRunner = HashBuiltinRunner::new(8, true).into();
    let mut vm = VirtualMachine::new();
    vm.memory.data = vec![vec![addr_cell(0, 1), addr_cell(0, 2), addr_cell(0, 3)]];
    vm.memory.validated_addresses = vec![Relocatable::new(0, 2)];
    assert_eq!(builtin.run_security_checks(&mut vm), Ok(()));
    assert!(!vm.auto_deduction_check_requested);
}

#[test]
fn run_security_checks_cursor_stops_at_unexpected_offset() {
    // Addresses in every cell: the cursor stops at offset 2, so the inputs of
    // the second instance are reported missing.
    let builtin = default_bitwise();
    let mut vm = VirtualMachine::new();
    vm.memory.data = vec![(0..10).map(|o| addr_cell(0, o)).collect()];
    assert_eq!(
        builtin.run_security_checks(&mut vm),
        Err(VirtualMachineError::MemoryError(MemoryError::MissingMemoryCellsWithOffsets(
            "bitwise",
            vec![5, 6],
        ))),
    );
}

#[test]
fn run_security_checks_hash_label() {
    let builtin: BuiltinRunner = HashBuiltinRunner::new(8, true).into();
    let mut vm = VirtualMachine::new();
    vm.memory.data = vec![vec![addr_cell(0, 0), None, addr_cell(0, 2), addr_cell(0, 3)]];
    assert_eq!(
        builtin.run_security_checks(&mut vm),
        Err(MemoryError::MissingMemoryCellsWithOffsets("hash", vec![1]).into()),
    );
}

#[test]
fn run_security_checks_range_check_temporary_segment() {
    let mut range_check = RangeCheckBuiltinRunner::new(8, 8);
    range_check.base = -3;
    let builtin = BuiltinRunner::RangeCheck(range_check);
    let mut vm = VirtualMachine::new();
    assert_eq!(
        builtin.run_security_checks(&mut vm),
        Err(MemoryError::AddressInTemporarySegment(-3).into()),
    );
}

#[test]
fn get_used_instances_rounds_up() {
    let builtin = default_bitwise();
    let mut vm = VirtualMachine::new();
    vm.segments.segment_used_sizes = Some(vec![11]);
    assert_eq!(builtin.get_used_instances(&vm), Ok(3));
    let range_check: BuiltinRunner = RangeCheckBuiltinRunner::new(8, 8).into();
    assert_eq!(range_check.get_used_instances(&vm), Ok(11));
}

#[test]
fn get_used_cells_and_allocated_size_by_kind() {
    let mut vm = VirtualMachine::new();
    vm.current_step = 512;
    vm.segments.segment_used_sizes = Some(vec![7]);
    assert_eq!(default_bitwise().get_used_cells_and_allocated_size(&vm), Ok((7, 10)));
    let output: BuiltinRunner = OutputBuiltinRunner::new(true).into();
    assert_eq!(output.get_used_cells_and_allocated_size(&vm), Ok((7, 7)));
    vm.current_step = 500;
    assert_eq!(
        default_bitwise().get_used_cells_and_allocated_size(&vm),
        Err(MemoryError::InsufficientAllocatedCells),
    );
}

#[test]
fn get_used_diluted_check_units_small_blocks() {
    // Blocks of 8 positions, the first 2 of each kept: 0,1,8,9 below 10;
    // those past 10 - 2 * 3 - 1: 8, 9.
    let builtin: BuiltinRunner =
        BitwiseBuiltinRunner::new(&BitwiseInstanceDef { ratio: 8, total_n_bits: 10 }, true).into();
    assert_eq!(builtin.get_used_diluted_check_units(2, 4), 4 * 4 + 2);
}

#[test]
fn initialize_segments_sets_base_of_each_kind() {
    let mut vm = VirtualMachine::new();
    let mut hash: BuiltinRunner = HashBuiltinRunner::new(8, true).into();
    let mut output: BuiltinRunner = OutputBuiltinRunner::new(true).into();
    hash.initialize_segments(&mut vm.segments, &mut vm.memory);
    output.initialize_segments(&mut vm.segments, &mut vm.memory);
    assert_eq!(hash.base(), 0);
    assert_eq!(output.base(), 1);
    assert_eq!(vm.memory.data.len(), 2);
    assert_eq!(
        output.initial_stack(),
        vec![MaybeRelocatable::RelocatableValue(Relocatable::new(1, 0))],
    );
    assert_eq!(output.ratio(), None);
    assert_eq!(hash.ratio(), Some(8));
}

#[test]
fn add_validation_rule_temporary_segment() {
    let mut bitwise = BitwiseBuiltinRunner::new(&BitwiseInstanceDef::default(), true);
    bitwise.base = -2;
    let builtin = BuiltinRunner::Bitwise(bitwise);
    let mut memory = Memory::new();
    assert_eq!(
        builtin.add_validation_rule(&mut memory),
        Err(builtin_runners::errors::RunnerError::RunnerInTemporarySegment(-2)),
    );
}

#[test]
fn deduce_memory_cell_range_check_gives_nothing() {
    let mut builtin: BuiltinRunner = RangeCheckBuiltinRunner::new(8, 8).into();
    let memory = memory_of(&[1, 2]);
    assert_eq!(builtin.deduce_memory_cell(&Relocatable::new(0, 1), &memory), Ok(None));
}

#[test]
fn deduce_memory_cell_bitwise_outputs() {
    let mut builtin = default_bitwise();
    let memory = memory_of(&[12, 10]);
    assert_eq!(
        builtin.deduce_memory_cell(&Relocatable::new(0, 2), &memory),
        Ok(int_cell(8)),
    );
    assert_eq!(
        builtin.deduce_memory_cell(&Relocatable::new(0, 3), &memory),
        Ok(int_cell(6)),
    );
    assert_eq!(
        builtin.deduce_memory_cell(&Relocatable::new(0, 4), &memory),
        Ok(int_cell(14)),
    );
    assert_eq!(builtin.deduce_memory_cell(&Relocatable::new(0, 1), &memory), Ok(None));
    assert_eq!(builtin.deduce_memory_cell(&Relocatable::new(0, 7), &memory), Ok(None));
}

#[test]
fn deduce_memory_cell_bitwise_input_too_large() {
    let mut builtin = default_bitwise();
    let mut memory = Memory::new();
    memory.data = vec![vec![
        int_cell(1),
        Some(MaybeRelocatable::Int(Felt::from_parts(false, vec![0, 0, 0, 1 << 59]))),
    ]];
    assert_eq!(
        builtin.deduce_memory_cell(&Relocatable::new(0, 2), &memory),
        Err(builtin_runners::errors::RunnerError::IntegerBiggerThanPowerOfTwo(
            Relocatable::new(0, 1),
            251,
        )),
    );
    memory.data[0][1] = Some(MaybeRelocatable::Int(Felt::from_parts(false, vec![0, 0, 0, 1 << 58])));
    assert_eq!(
        builtin.deduce_memory_cell(&Relocatable::new(0, 4), &memory),
        Ok(Some(MaybeRelocatable::Int(Felt::from_parts(false, vec![1, 0, 0, 1 << 58])))),
    );
}

#[test]
fn deduce_memory_cell_other_kinds_give_nothing() {
    let memory = memory_of(&[12, 10, 0, 0, 0, 0, 0]);
    let mut hash: BuiltinRunner = HashBuiltinRunner::new(8, true).into();
    assert_eq!(hash.deduce_memory_cell(&Relocatable::new(0, 2), &memory), Ok(None));
    let mut output: BuiltinRunner = OutputBuiltinRunner::new(true).into();
    assert_eq!(output.deduce_memory_cell(&Relocatable::new(0, 2), &memory), Ok(None));
}
