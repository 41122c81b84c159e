use register_vm::outcome::{StepOutcome, VmError};
use register_vm::vm::VM;

fn machine(program: Vec<u8>) -> VM {
    let mut vm = VM::new();
    vm.program = program;
    vm
}

fn registers_but(vm: &VM, skip: usize) -> Vec<i32> {
    let mut rest = Vec::new();
    for i in 0..32 {
        if i != skip {
            rest.push(vm.registers[i]);
        }
    }
    rest
}

#[test]
fn test_fresh_machine() {
    let vm = VM::new();
    assert_eq!(vm.registers, [0; 32]);
    assert_eq!(vm.pc, 0);
    assert!(vm.program.is_empty());
    assert_eq!(vm.remainder, 0);
    assert_eq!(vm.equal_flag, false);
    assert_eq!(vm.status, StepOutcome::Continue);
}

#[test]
fn test_test_machine() {
    let vm = VM::get_test_vm();
    assert_eq!(vm.registers[0], 5);
    assert_eq!(vm.registers[1], 10);
    assert_eq!(registers_but(&vm, 0)[1..], [0; 30]);
    assert_eq!(vm.pc, 0);
    assert!(vm.program.is_empty());
    assert_eq!(vm.status, StepOutcome::Continue);
}

#[test]
fn test_load_on_fresh_machine() {
    let mut vm = machine(vec![0, 0, 1, 244]);
    assert_eq!(vm.run_once(), Ok(StepOutcome::Continue));
    assert_eq!(vm.registers[0], 500);
    assert_eq!(vm.pc, 4);
    assert_eq!(registers_but(&vm, 0), vec![0; 31]);
}

#[test]
fn test_load_is_unsigned_and_big_endian() {
    let mut vm = machine(vec![0, 31, 255, 255, 0, 7, 128, 0, 0, 3, 0, 1]);
    assert_eq!(vm.run(), Ok(StepOutcome::EndOfProgram));
    assert_eq!(vm.registers[31], 65535);
    assert_eq!(vm.registers[7], 32768);
    assert_eq!(vm.registers[3], 1);
    assert_eq!(vm.pc, 12);
}

#[test]
fn test_load_changes_no_other_register() {
    let mut vm = VM::get_test_vm();
    vm.program = vec![0, 4, 0, 9];
    let before = registers_but(&vm, 4);
    assert_eq!(vm.run_once(), Ok(StepOutcome::Continue));
    assert_eq!(vm.registers[4], 9);
    assert_eq!(registers_but(&vm, 4), before);
    assert_eq!(vm.remainder, 0);
    assert_eq!(vm.equal_flag, false);
}

#[test]
fn test_add_run_to_halt() {
    let mut vm = VM::get_test_vm();
    vm.program = vec![1, 0, 1, 2];
    assert_eq!(vm.run(), Ok(StepOutcome::EndOfProgram));
    assert_eq!(vm.registers[2], 15);
    assert_eq!(vm.registers[0], 5);
    assert_eq!(vm.registers[1], 10);
    assert_eq!(vm.pc, 4);
}

#[test]
fn test_div_run_to_halt() {
    let mut vm = VM::get_test_vm();
    vm.program = vec![4, 1, 0, 2];
    assert_eq!(vm.run(), Ok(StepOutcome::EndOfProgram));
    assert_eq!(vm.registers[2], 2);
    assert_eq!(vm.remainder, 0);
}

#[test]
fn test_arithmetic_keeps_sources() {
    let mut vm = VM::get_test_vm();
    vm.program = vec![2, 0, 1, 2, 3, 0, 1, 3];
    assert_eq!(vm.run_once(), Ok(StepOutcome::Continue));
    assert_eq!(vm.registers[2], -5);
    assert_eq!(vm.run_once(), Ok(StepOutcome::Continue));
    assert_eq!(vm.registers[3], 50);
    assert_eq!(vm.registers[0], 5);
    assert_eq!(vm.registers[1], 10);
    assert_eq!(vm.pc, 8);
}

#[test]
fn test_destination_may_be_a_source() {
    let mut vm = VM::get_test_vm();
    vm.program = vec![1, 0, 1, 0];
    assert_eq!(vm.run_once(), Ok(StepOutcome::Continue));
    assert_eq!(vm.registers[0], 15);
    assert_eq!(vm.registers[1], 10);
}

#[test]
fn test_add_wraps() {
    let mut vm = machine(vec![1, 0, 1, 2]);
    vm.registers[0] = i32::MAX;
    vm.registers[1] = 1;
    assert_eq!(vm.run_once(), Ok(StepOutcome::Continue));
    assert_eq!(vm.registers[2], i32::MIN);
}

#[test]
fn test_sub_wraps() {
    let mut vm = machine(vec![2, 0, 1, 2]);
    vm.registers[0] = i32::MIN;
    vm.registers[1] = 1;
    assert_eq!(vm.run_once(), Ok(StepOutcome::Continue));
    assert_eq!(vm.registers[2], i32::MAX);
}

#[test]
fn test_mul_wraps() {
    let mut vm = machine(vec![3, 0, 1, 2, 3, 3, 4, 5]);
    vm.registers[0] = 65536;
    vm.registers[1] = 65536;
    vm.registers[3] = 123456789;
    vm.registers[4] = -1000;
    assert_eq!(vm.run_once(), Ok(StepOutcome::Continue));
    assert_eq!(vm.registers[2], 0);
    assert_eq!(vm.run_once(), Ok(StepOutcome::Continue));
    assert_eq!(vm.registers[5], 1097262584);
}

fn divide(a: i32, b: i32) -> (i32, u32) {
    let mut vm = machine(vec![4, 0, 1, 2]);
    vm.registers[0] = a;
    vm.registers[1] = b;
    assert_eq!(vm.run_once(), Ok(StepOutcome::Continue));
    assert_eq!(vm.pc, 4);
    (vm.registers[2], vm.remainder)
}

#[test]
fn test_div_truncates_toward_zero() {
    assert_eq!(divide(7, 2), (3, 1));
    assert_eq!(divide(7, -2), (-3, 1));
    assert_eq!(divide(-7, 2), (-3, 4294967295));
    assert_eq!(divide(-7, -2), (3, 4294967295));
    assert_eq!(divide(0, 9), (0, 0));
    assert_eq!(divide(3, 10), (0, 3));
    assert_eq!(divide(-3, 10), (0, 4294967293));
    assert_eq!(divide(i32::MAX, 1), (i32::MAX, 0));
    assert_eq!(divide(i32::MIN, 1), (i32::MIN, 0));
    assert_eq!(divide(i32::MIN, 2), (-1073741824, 0));
    assert_eq!(divide(i32::MIN, i32::MAX), (-1, 4294967295));
    assert_eq!(divide(i32::MAX, i32::MIN), (0, 2147483647));
}

#[test]
fn test_div_overflow_wraps() {
    assert_eq!(divide(i32::MIN, -1), (i32::MIN, 0));
}

#[test]
fn test_hlt_outcome() {
    let mut vm = machine(vec![5, 0, 0, 0]);
    assert_eq!(vm.run_once(), Ok(StepOutcome::Halted));
    assert_eq!(vm.pc, 1);
    assert_eq!(vm.status, StepOutcome::Halted);
    assert_eq!(vm.registers, [0; 32]);
}

#[test]
fn test_igl_outcome() {
    let mut vm = machine(vec![254, 0, 0, 0]);
    assert_eq!(vm.run_once(), Ok(StepOutcome::IllegalOpcode));
    assert_eq!(vm.pc, 1);
    assert_eq!(vm.status, StepOutcome::IllegalOpcode);
    assert_eq!(vm.registers, [0; 32]);
}

#[test]
fn test_every_illegal_byte_stops() {
    for byte in 17..=255u8 {
        let mut vm = machine(vec![byte]);
        assert_eq!(vm.run_once(), Ok(StepOutcome::IllegalOpcode));
        assert_eq!(vm.pc, 1);
    }
}

#[test]
fn test_end_of_program_is_a_no_op() {
    let mut vm = VM::get_test_vm();
    assert_eq!(vm.run_once(), Ok(StepOutcome::EndOfProgram));
    assert_eq!(vm.pc, 0);
    assert_eq!(vm.status, StepOutcome::Continue);
    vm.program = vec![0, 0, 0, 1];
    vm.pc = 9;
    assert_eq!(vm.run_once(), Ok(StepOutcome::EndOfProgram));
    assert_eq!(vm.pc, 9);
    assert_eq!(vm.registers[0], 5);
}

fn snapshot(vm: &VM) -> ([i32; 32], usize, Vec<u8>, u32, bool, StepOutcome) {
    (vm.registers, vm.pc, vm.program.clone(), vm.remainder, vm.equal_flag, vm.status)
}

#[test]
fn test_step_after_halt_changes_nothing() {
    let mut vm = VM::get_test_vm();
    vm.program = vec![5, 0, 0, 1, 1, 0, 1, 2];
    assert_eq!(vm.run_once(), Ok(StepOutcome::Halted));
    let stopped = snapshot(&vm);
    for _ in 0..3 {
        assert_eq!(vm.run_once(), Ok(StepOutcome::Halted));
        assert_eq!(snapshot(&vm), stopped);
    }
    assert_eq!(vm.run(), Ok(StepOutcome::Halted));
    assert_eq!(snapshot(&vm), stopped);
}

#[test]
fn test_step_after_illegal_opcode_changes_nothing() {
    let mut vm = VM::get_test_vm();
    vm.program = vec![200, 0, 0, 1, 1, 0, 1, 2];
    assert_eq!(vm.run_once(), Ok(StepOutcome::IllegalOpcode));
    let stopped = snapshot(&vm);
    for _ in 0..3 {
        assert_eq!(vm.run_once(), Ok(StepOutcome::IllegalOpcode));
        assert_eq!(snapshot(&vm), stopped);
    }
    assert_eq!(vm.run(), Ok(StepOutcome::IllegalOpcode));
    assert_eq!(snapshot(&vm), stopped);
}

#[test]
fn test_step_after_end_of_program_changes_nothing() {
    let mut vm = VM::get_test_vm();
    vm.program = vec![1, 0, 1, 2];
    assert_eq!(vm.run(), Ok(StepOutcome::EndOfProgram));
    let stopped = snapshot(&vm);
    for _ in 0..3 {
        assert_eq!(vm.run_once(), Ok(StepOutcome::EndOfProgram));
        assert_eq!(snapshot(&vm), stopped);
    }
    assert_eq!(vm.run(), Ok(StepOutcome::EndOfProgram));
    assert_eq!(snapshot(&vm), stopped);
}

fn compare(code: u8, a: i32, b: i32) -> (bool, usize) {
    let mut vm = machine(vec![code, 0, 1, 0]);
    vm.registers[0] = a;
    vm.registers[1] = b;
    assert_eq!(vm.run_once(), Ok(StepOutcome::Continue));
    assert_eq!(vm.registers[0], a);
    assert_eq!(vm.registers[1], b);
    (vm.equal_flag, vm.pc)
}

#[test]
fn test_eq_true_and_false() {
    assert_eq!(compare(9, 2, 2), (true, 4));
    assert_eq!(compare(9, 2, 3), (false, 4));
}

#[test]
fn test_neq_true_and_false() {
    assert_eq!(compare(12, 10, 5), (true, 4));
    assert_eq!(compare(12, 10, 10), (false, 4));
}

#[test]
fn test_gt_true_and_false() {
    assert_eq!(compare(13, 3, 2), (true, 3));
    assert_eq!(compare(13, 2, 2), (false, 3));
    assert_eq!(compare(13, -1, 2), (false, 3));
}

#[test]
fn test_lt_true_and_false() {
    assert_eq!(compare(14, -5, 2), (true, 3));
    assert_eq!(compare(14, 2, 2), (false, 3));
    assert_eq!(compare(14, 3, 2), (false, 3));
}

#[test]
fn test_gte_true_and_false() {
    assert_eq!(compare(15, 3, 2), (true, 3));
    assert_eq!(compare(15, 2, 2), (true, 3));
    assert_eq!(compare(15, 1, 2), (false, 3));
}

#[test]
fn test_lte_true_and_false() {
    assert_eq!(compare(16, 1, 2), (true, 3));
    assert_eq!(compare(16, 2, 2), (true, 3));
    assert_eq!(compare(16, 3, 2), (false, 3));
}

#[test]
fn test_comparison_overwrites_flag() {
    let mut vm = machine(vec![13, 0, 1]);
    vm.equal_flag = true;
    assert_eq!(vm.run_once(), Ok(StepOutcome::Continue));
    assert_eq!(vm.equal_flag, false);
}

fn conditional_jump(code: u8, flag: bool, target: i32) -> (Result<StepOutcome, VmError>, usize) {
    let mut vm = machine(vec![code, 3, 0, 0, 0, 0, 0, 0]);
    vm.registers[3] = target;
    vm.equal_flag = flag;
    let result = vm.run_once();
    assert_eq!(vm.equal_flag, flag);
    assert_eq!(vm.registers[3], target);
    (result, vm.pc)
}

#[test]
fn test_jmpe_follows_flag() {
    assert_eq!(conditional_jump(10, true, 6), (Ok(StepOutcome::Continue), 6));
    assert_eq!(conditional_jump(10, false, 6), (Ok(StepOutcome::Continue), 2));
    assert_eq!(conditional_jump(10, true, 0), (Ok(StepOutcome::Continue), 0));
    assert_eq!(conditional_jump(10, true, 1000), (Ok(StepOutcome::Continue), 1000));
}

#[test]
fn test_jneq_follows_flag() {
    assert_eq!(conditional_jump(11, false, 6), (Ok(StepOutcome::Continue), 6));
    assert_eq!(conditional_jump(11, true, 6), (Ok(StepOutcome::Continue), 2));
    assert_eq!(conditional_jump(11, false, 0), (Ok(StepOutcome::Continue), 0));
}

#[test]
fn test_conditional_jump_not_taken_ignores_target() {
    assert_eq!(conditional_jump(10, false, -1), (Ok(StepOutcome::Continue), 2));
    assert_eq!(conditional_jump(11, true, -1), (Ok(StepOutcome::Continue), 2));
}

#[test]
fn test_conditional_jump_to_negative_target() {
    assert_eq!(conditional_jump(10, true, -1), (Err(VmError::ProgramCounterUnderflow), 0));
    assert_eq!(conditional_jump(11, false, -1), (Err(VmError::ProgramCounterUnderflow), 0));
}

fn jump(code: u8, start: usize, value: i32) -> (Result<StepOutcome, VmError>, usize) {
    let mut program = vec![0u8; 16];
    program[start] = code;
    program[start + 1] = 9;
    let mut vm = machine(program);
    vm.pc = start;
    vm.registers[9] = value;
    let result = vm.run_once();
    assert_eq!(vm.registers[9], value);
    (result, vm.pc)
}

#[test]
fn test_jmp_is_absolute() {
    assert_eq!(jump(6, 4, 0), (Ok(StepOutcome::Continue), 0));
    assert_eq!(jump(6, 4, 12), (Ok(StepOutcome::Continue), 12));
    assert_eq!(jump(6, 4, 2147483647), (Ok(StepOutcome::Continue), 2147483647));
}

#[test]
fn test_jmpf_is_relative_to_the_next_instruction() {
    assert_eq!(jump(8, 4, 0), (Ok(StepOutcome::Continue), 6));
    assert_eq!(jump(8, 4, 5), (Ok(StepOutcome::Continue), 11));
    assert_eq!(jump(8, 4, -6), (Ok(StepOutcome::Continue), 0));
    assert_eq!(jump(8, 4, 100), (Ok(StepOutcome::Continue), 106));
}

#[test]
fn test_jmpb_is_relative_to_the_next_instruction() {
    assert_eq!(jump(7, 4, 0), (Ok(StepOutcome::Continue), 6));
    assert_eq!(jump(7, 4, 6), (Ok(StepOutcome::Continue), 0));
    assert_eq!(jump(7, 4, 2), (Ok(StepOutcome::Continue), 4));
    assert_eq!(jump(7, 4, -3), (Ok(StepOutcome::Continue), 9));
}

#[test]
fn test_jump_past_the_end_ends_the_program() {
    let mut vm = machine(vec![6, 0, 5, 0]);
    vm.registers[0] = 40;
    assert_eq!(vm.run_once(), Ok(StepOutcome::Continue));
    assert_eq!(vm.pc, 40);
    assert_eq!(vm.run_once(), Ok(StepOutcome::EndOfProgram));
    assert_eq!(vm.pc, 40);
}

#[test]
fn test_instructions_have_no_fixed_width() {
    let mut vm = VM::get_test_vm();
    vm.program = vec![13, 1, 0, 5];
    assert_eq!(vm.run_once(), Ok(StepOutcome::Continue));
    assert_eq!(vm.pc, 3);
    assert_eq!(vm.equal_flag, true);
    assert_eq!(vm.run_once(), Ok(StepOutcome::Halted));
    assert_eq!(vm.pc, 4);
}

#[test]
fn test_is_terminal() {
    assert_eq!(StepOutcome::Continue.is_terminal(), false);
    assert_eq!(StepOutcome::Halted.is_terminal(), true);
    assert_eq!(StepOutcome::IllegalOpcode.is_terminal(), true);
    assert_eq!(StepOutcome::EndOfProgram.is_terminal(), true);
}
