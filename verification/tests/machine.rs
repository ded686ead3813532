use tinyvm::error::MachineError;
use tinyvm::machine::value::MachineValue;
use tinyvm::machine::value::MachineValue::{Int16, Int32, Int8, Nil, Uint16, Uint32, Uint64, Uint8};
use tinyvm::machine::{Machine, MachineLoopState};
use tinyvm::op::OpArg::{
    Instruction, Register1, Register2, Register3, Register4, Register9,
};
use tinyvm::op::OpCode::{
    Add, Call, Divide, Exit, Jump, JumpIfEqual, JumpIfZero, Multiply, Pop, Push, Return, Subtract,
};
use tinyvm::op::{Op, OpArg, OpCode};
use tinyvm::program::Program;

fn op(code: OpCode, arg: OpArg) -> Op {
    Op::new(code, arg)
}

fn machine(ops: Vec<Op>) -> Machine {
    Machine::new(Program::new(ops))
}

fn fibonacci() -> Program {
    Program::new(vec![
        op(Pop, Register3),
        op(Push, OpArg::Uint64(0)),
        op(Pop, Register1),
        op(Push, OpArg::Uint64(1)),
        op(Pop, Register2),
        op(Push, Register3),
        op(JumpIfZero, Instruction(20)),
        op(Push, Register1),
        op(Push, Register2),
        op(Add, OpArg::Nil),
        op(Pop, Register4),
        op(Push, Register2),
        op(Pop, Register1),
        op(Push, Register4),
        op(Pop, Register2),
        op(Push, Register3),
        op(Push, OpArg::Uint64(1)),
        op(Subtract, OpArg::Nil),
        op(Pop, Register3),
        op(Jump, Instruction(5)),
        op(Push, Register1),
        op(Exit, OpArg::Nil),
    ])
}

fn fibonacci_of(input: u64) -> MachineValue {
    let mut machine = Machine::new(fibonacci());
    machine.push(Uint64(input));
    assert_eq!(machine.run(), Ok(()));
    let result = machine.pop().unwrap();
    assert_eq!(machine.pop(), Err(MachineError::StackEmpty));
    result
}

#[test]
fn push_then_pop_gives_the_value_back() {
    let mut machine = machine(vec![]);
    machine.push(Uint8(1));
    machine.push(Int16(-2));
    assert!(matches!(machine.pop(), Ok(Int16(-2))));
    assert!(matches!(machine.pop(), Ok(Uint8(1))));
}

#[test]
fn pop_of_an_empty_stack_fails() {
    let mut machine = machine(vec![]);
    assert_eq!(machine.pop(), Err(MachineError::StackEmpty));
    machine.push(Nil);
    assert!(matches!(machine.pop(), Ok(Nil)));
    assert_eq!(machine.pop(), Err(MachineError::StackEmpty));
}

#[test]
fn store_and_reload_through_a_register() {
    let mut machine = machine(vec![
        op(Push, OpArg::Uint64(0)),
        op(Pop, Register1),
        op(Push, Register1),
        op(Exit, OpArg::Nil),
    ]);
    assert_eq!(machine.run(), Ok(()));
    assert!(matches!(machine.pop(), Ok(Uint64(0))));
    assert_eq!(machine.pop(), Err(MachineError::StackEmpty));
}

#[test]
fn step_reports_whether_the_program_goes_on() {
    let mut machine = machine(vec![
        op(Push, OpArg::Uint64(0)),
        op(Pop, Register1),
        op(Push, Register1),
        op(Exit, OpArg::Nil),
    ]);
    assert_eq!(machine.step(), Ok(MachineLoopState::Continue));
    assert_eq!(machine.step(), Ok(MachineLoopState::Continue));
    assert_eq!(machine.step(), Ok(MachineLoopState::Continue));
    assert_eq!(machine.step(), Ok(MachineLoopState::Break));
}

#[test]
fn exit_does_not_advance() {
    let mut machine = machine(vec![op(Exit, OpArg::Nil), op(Push, OpArg::Uint8(1))]);
    assert_eq!(machine.step(), Ok(MachineLoopState::Break));
    assert_eq!(machine.step(), Ok(MachineLoopState::Break));
    assert_eq!(machine.run(), Ok(()));
    assert_eq!(machine.pop(), Err(MachineError::StackEmpty));
}

#[test]
fn fibonacci_of_ten_is_fifty_five() {
    assert!(matches!(fibonacci_of(10), Uint64(55)));
}

#[test]
fn fibonacci_of_zero_is_zero() {
    assert!(matches!(fibonacci_of(0), Uint64(0)));
}

#[test]
fn fibonacci_of_one_is_one() {
    assert!(matches!(fibonacci_of(1), Uint64(1)));
}

#[test]
fn fibonacci_of_sixty() {
    assert!(matches!(fibonacci_of(60), Uint64(1_548_008_755_920)));
}

#[test]
fn push_of_each_kind_of_immediate() {
    let mut machine = machine(vec![
        op(Push, OpArg::Nil),
        op(Push, OpArg::Uint8(1)),
        op(Push, OpArg::Int32(-2)),
        op(Push, Register9),
        op(Exit, OpArg::Nil),
    ]);
    assert_eq!(machine.run(), Ok(()));
    assert!(matches!(machine.pop(), Ok(Nil)));
    assert!(matches!(machine.pop(), Ok(Int32(-2))));
    assert!(matches!(machine.pop(), Ok(Uint8(1))));
    assert!(matches!(machine.pop(), Ok(Nil)));
    assert_eq!(machine.pop(), Err(MachineError::StackEmpty));
}

#[test]
fn push_of_an_instruction_index_fails() {
    let mut machine = machine(vec![op(Push, Instruction(0)), op(Exit, OpArg::Nil)]);
    assert_eq!(machine.step(), Err(MachineError::ValueExpected));
    assert_eq!(machine.pop(), Err(MachineError::StackEmpty));
    assert_eq!(machine.step(), Err(MachineError::ValueExpected));
}

#[test]
fn pop_instruction_on_an_empty_stack_fails() {
    let mut machine = machine(vec![op(Pop, Register1)]);
    assert_eq!(machine.step(), Err(MachineError::StackEmpty));
    assert_eq!(machine.run(), Err(MachineError::StackEmpty));
}

#[test]
fn pop_into_what_is_no_register_fails_and_loses_the_value() {
    let mut machine = machine(vec![op(Pop, OpArg::Uint8(0))]);
    machine.push(Uint8(7));
    assert_eq!(machine.step(), Err(MachineError::RegisterExpected));
    assert_eq!(machine.pop(), Err(MachineError::StackEmpty));
}

#[test]
fn arithmetic_takes_the_value_pushed_first_as_the_left_operand() {
    let mut machine = machine(vec![
        op(Push, OpArg::Uint8(10)),
        op(Push, OpArg::Uint16(3)),
        op(Subtract, OpArg::Nil),
        op(Push, OpArg::Int32(-7)),
        op(Push, OpArg::Int8(2)),
        op(Divide, OpArg::Nil),
        op(Push, OpArg::Uint16(300)),
        op(Push, OpArg::Uint8(2)),
        op(Multiply, OpArg::Nil),
        op(Push, OpArg::Uint8(1)),
        op(Push, OpArg::Uint16(257)),
        op(Add, OpArg::Nil),
        op(Exit, OpArg::Nil),
    ]);
    assert_eq!(machine.run(), Ok(()));
    assert!(matches!(machine.pop(), Ok(Uint8(2))));
    assert!(matches!(machine.pop(), Ok(Uint16(600))));
    assert!(matches!(machine.pop(), Ok(Int32(-3))));
    assert!(matches!(machine.pop(), Ok(Uint8(7))));
    assert_eq!(machine.pop(), Err(MachineError::StackEmpty));
}

#[test]
fn arithmetic_on_fewer_than_two_values_fails_and_empties_the_stack() {
    for code in [Add, Subtract, Multiply, Divide] {
        let mut machine = machine(vec![op(code, OpArg::Nil)]);
        assert_eq!(machine.step(), Err(MachineError::StackEmpty));
        machine.push(Uint8(1));
        assert_eq!(machine.step(), Err(MachineError::StackEmpty));
        assert_eq!(machine.pop(), Err(MachineError::StackEmpty));
    }
}

#[test]
fn jump_sets_the_counter_to_the_target() {
    let mut machine = machine(vec![
        op(Jump, Instruction(2)),
        op(Push, OpArg::Uint8(1)),
        op(Push, OpArg::Uint8(2)),
        op(Exit, OpArg::Nil),
    ]);
    assert_eq!(machine.run(), Ok(()));
    assert!(matches!(machine.pop(), Ok(Uint8(2))));
    assert_eq!(machine.pop(), Err(MachineError::StackEmpty));
}

#[test]
fn jump_without_a_target_fails() {
    for arg in [OpArg::Nil, Register1, OpArg::Uint64(2)] {
        let mut machine = machine(vec![op(Jump, arg), op(Exit, OpArg::Nil)]);
        assert_eq!(machine.step(), Err(MachineError::InstructionExpected));
        assert_eq!(machine.step(), Err(MachineError::InstructionExpected));
    }
}

#[test]
fn jump_if_equal_jumps_on_equal_values() {
    let mut machine = machine(vec![
        op(Push, OpArg::Uint32(5)),
        op(Push, OpArg::Uint32(5)),
        op(JumpIfEqual, Instruction(4)),
        op(Push, OpArg::Uint8(1)),
        op(Exit, OpArg::Nil),
    ]);
    assert_eq!(machine.run(), Ok(()));
    assert_eq!(machine.pop(), Err(MachineError::StackEmpty));
}

#[test]
fn jump_if_equal_falls_through_on_different_values_and_keeps_neither() {
    let mut machine = machine(vec![
        op(Push, OpArg::Uint32(5)),
        op(Push, OpArg::Uint32(6)),
        op(JumpIfEqual, Instruction(4)),
        op(Push, OpArg::Uint8(1)),
        op(Exit, OpArg::Nil),
    ]);
    assert_eq!(machine.run(), Ok(()));
    assert!(matches!(machine.pop(), Ok(Uint8(1))));
    assert_eq!(machine.pop(), Err(MachineError::StackEmpty));
}

#[test]
fn jump_if_equal_compares_at_the_kind_of_the_value_pushed_first() {
    let mut narrow_first = machine(vec![
        op(Push, OpArg::Uint8(0)),
        op(Push, OpArg::Uint16(256)),
        op(JumpIfEqual, Instruction(4)),
        op(Push, OpArg::Uint8(1)),
        op(Exit, OpArg::Nil),
    ]);
    assert_eq!(narrow_first.run(), Ok(()));
    assert_eq!(narrow_first.pop(), Err(MachineError::StackEmpty));

    let mut wide_first = machine(vec![
        op(Push, OpArg::Uint16(256)),
        op(Push, OpArg::Uint8(0)),
        op(JumpIfEqual, Instruction(4)),
        op(Push, OpArg::Uint8(1)),
        op(Exit, OpArg::Nil),
    ]);
    assert_eq!(wide_first.run(), Ok(()));
    assert!(matches!(wide_first.pop(), Ok(Uint8(1))));
}

#[test]
fn jump_if_equal_without_a_target_fails_on_equal_values_only() {
    let mut equal = machine(vec![op(JumpIfEqual, OpArg::Nil), op(Exit, OpArg::Nil)]);
    equal.push(Uint8(1));
    equal.push(Uint8(1));
    assert_eq!(equal.step(), Err(MachineError::InstructionExpected));
    assert_eq!(equal.pop(), Err(MachineError::StackEmpty));

    let mut different = machine(vec![op(JumpIfEqual, OpArg::Nil), op(Exit, OpArg::Nil)]);
    different.push(Uint8(1));
    different.push(Uint8(2));
    assert_eq!(different.step(), Ok(MachineLoopState::Continue));
    assert_eq!(different.step(), Ok(MachineLoopState::Break));
}

#[test]
fn jump_if_equal_on_fewer_than_two_values_fails() {
    let mut machine = machine(vec![op(JumpIfEqual, Instruction(0))]);
    assert_eq!(machine.step(), Err(MachineError::StackEmpty));
    machine.push(Uint8(1));
    assert_eq!(machine.step(), Err(MachineError::StackEmpty));
    assert_eq!(machine.pop(), Err(MachineError::StackEmpty));
}

#[test]
fn jump_if_zero_jumps_on_zero_and_takes_the_value() {
    for zero in [Uint8(0), Int32(0), Uint64(0), Nil] {
        let mut machine = machine(vec![
            op(JumpIfZero, Instruction(2)),
            op(Push, OpArg::Uint8(1)),
            op(Exit, OpArg::Nil),
        ]);
        machine.push(zero);
        assert_eq!(machine.run(), Ok(()));
        assert_eq!(machine.pop(), Err(MachineError::StackEmpty));
    }
}

#[test]
fn jump_if_zero_falls_through_on_what_is_not_zero() {
    for value in [Uint8(1), Int8(-1), Uint16(256), Uint32(1 << 31)] {
        let mut machine = machine(vec![
            op(JumpIfZero, Instruction(2)),
            op(Push, OpArg::Uint8(1)),
            op(Exit, OpArg::Nil),
        ]);
        machine.push(value);
        assert_eq!(machine.run(), Ok(()));
        assert!(matches!(machine.pop(), Ok(Uint8(1))));
        assert_eq!(machine.pop(), Err(MachineError::StackEmpty));
    }
}

#[test]
fn jump_if_zero_on_an_empty_stack_fails() {
    let mut machine = machine(vec![op(JumpIfZero, Instruction(0))]);
    assert_eq!(machine.step(), Err(MachineError::StackEmpty));
}

#[test]
fn jump_if_zero_without_a_target_fails_on_zero_only() {
    let mut zero = machine(vec![op(JumpIfZero, OpArg::Nil), op(Exit, OpArg::Nil)]);
    zero.push(Uint8(0));
    assert_eq!(zero.step(), Err(MachineError::InstructionExpected));
    assert_eq!(zero.pop(), Err(MachineError::StackEmpty));

    let mut one = machine(vec![op(JumpIfZero, OpArg::Nil), op(Exit, OpArg::Nil)]);
    one.push(Uint8(1));
    assert_eq!(one.step(), Ok(MachineLoopState::Continue));
    assert_eq!(one.step(), Ok(MachineLoopState::Break));
}

#[test]
fn return_resumes_after_the_call() {
    let mut machine = machine(vec![
        op(Push, OpArg::Uint8(1)),
        op(Call, Instruction(4)),
        op(Push, OpArg::Uint8(3)),
        op(Exit, OpArg::Nil),
        op(Push, OpArg::Uint8(2)),
        op(Return, OpArg::Nil),
    ]);
    assert_eq!(machine.run(), Ok(()));
    assert!(matches!(machine.pop(), Ok(Uint8(3))));
    assert!(matches!(machine.pop(), Ok(Uint8(2))));
    assert!(matches!(machine.pop(), Ok(Uint8(1))));
    assert_eq!(machine.pop(), Err(MachineError::StackEmpty));
}

#[test]
fn nested_calls_return_in_reverse_order() {
    let mut machine = machine(vec![
        op(Call, Instruction(3)),
        op(Push, OpArg::Uint8(4)),
        op(Exit, OpArg::Nil),
        op(Push, OpArg::Uint8(1)),
        op(Call, Instruction(7)),
        op(Push, OpArg::Uint8(3)),
        op(Return, OpArg::Nil),
        op(Push, OpArg::Uint8(2)),
        op(Return, OpArg::Nil),
    ]);
    assert_eq!(machine.run(), Ok(()));
    assert!(matches!(machine.pop(), Ok(Uint8(4))));
    assert!(matches!(machine.pop(), Ok(Uint8(3))));
    assert!(matches!(machine.pop(), Ok(Uint8(2))));
    assert!(matches!(machine.pop(), Ok(Uint8(1))));
}

#[test]
fn call_without_a_target_fails_and_leaves_no_call_pending() {
    let mut machine = machine(vec![op(Call, OpArg::Nil)]);
    assert_eq!(machine.step(), Err(MachineError::InstructionExpected));
    assert!(machine == Machine::new(Program::new(vec![op(Call, OpArg::Nil)])));
}

#[test]
fn return_with_no_call_pending_fails() {
    let mut machine = machine(vec![op(Return, OpArg::Nil)]);
    assert_eq!(machine.step(), Err(MachineError::CallStackEmpty));
    assert_eq!(machine.run(), Err(MachineError::CallStackEmpty));
}

#[test]
fn step_past_the_last_instruction_fails() {
    let mut empty = machine(vec![]);
    assert_eq!(empty.step(), Err(MachineError::InstructionOverflow));
    assert_eq!(empty.run(), Err(MachineError::InstructionOverflow));

    let mut one = machine(vec![op(Push, OpArg::Uint8(1))]);
    assert_eq!(one.step(), Ok(MachineLoopState::Continue));
    assert_eq!(one.step(), Err(MachineError::InstructionOverflow));
    assert_eq!(one.step(), Err(MachineError::InstructionOverflow));
    assert!(matches!(one.pop(), Ok(Uint8(1))));
}

#[test]
fn jump_past_the_last_instruction_fails_at_the_next_step() {
    let mut machine = machine(vec![op(Jump, Instruction(7))]);
    assert_eq!(machine.step(), Ok(MachineLoopState::Continue));
    assert_eq!(machine.step(), Err(MachineError::InstructionOverflow));
}

#[test]
fn run_stops_at_the_first_failure() {
    let mut machine = machine(vec![
        op(Push, OpArg::Uint8(1)),
        op(Pop, OpArg::Nil),
        op(Push, OpArg::Uint8(2)),
        op(Exit, OpArg::Nil),
    ]);
    assert_eq!(machine.run(), Err(MachineError::RegisterExpected));
    assert_eq!(machine.pop(), Err(MachineError::StackEmpty));
}

#[test]
fn reset_gives_a_machine_as_new() {
    let mut machine = Machine::new(fibonacci());
    machine.push(Uint64(10));
    assert_eq!(machine.run(), Ok(()));
    machine.push(Uint16(3));
    machine.reset();
    assert!(machine == Machine::new(fibonacci()));
    assert_eq!(machine.pop(), Err(MachineError::StackEmpty));

    machine.push(Uint64(10));
    assert_eq!(machine.run(), Ok(()));
    assert!(matches!(machine.pop(), Ok(Uint64(55))));
}

#[test]
fn reset_forgets_pending_calls() {
    let ops = vec![op(Call, Instruction(1)), op(Return, OpArg::Nil), op(Exit, OpArg::Nil)];
    let mut machine = machine(ops.clone());
    assert_eq!(machine.step(), Ok(MachineLoopState::Continue));
    machine.reset();
    assert!(machine == Machine::new(Program::new(ops)));
    assert_eq!(machine.step(), Ok(MachineLoopState::Continue));
    assert_eq!(machine.step(), Ok(MachineLoopState::Continue));
    assert_eq!(machine.step(), Err(MachineError::CallStackEmpty));
}

#[test]
fn reset_of_a_new_machine_changes_nothing() {
    let mut machine = Machine::new(fibonacci());
    machine.reset();
    assert!(machine == Machine::new(fibonacci()));
}

#[test]
fn divides_by_zero_announces_the_division() {
    let mut machine = machine(vec![
        op(Push, OpArg::Uint8(1)),
        op(Push, OpArg::Uint16(256)),
        op(Divide, OpArg::Nil),
        op(Exit, OpArg::Nil),
    ]);
    assert!(!machine.divides_by_zero());
    assert_eq!(machine.step(), Ok(MachineLoopState::Continue));
    assert!(!machine.divides_by_zero());
    assert_eq!(machine.step(), Ok(MachineLoopState::Continue));
    assert!(machine.divides_by_zero());
}

#[test]
fn divides_by_zero_is_false_where_the_division_is_defined_or_fails() {
    let mut by_one = machine(vec![op(Divide, OpArg::Nil)]);
    assert!(!by_one.divides_by_zero());
    by_one.push(Uint8(0));
    assert!(!by_one.divides_by_zero());
    by_one.push(Uint8(1));
    assert!(!by_one.divides_by_zero());
    assert_eq!(by_one.step(), Ok(MachineLoopState::Continue));
    assert!(matches!(by_one.pop(), Ok(Uint8(0))));

    let mut nil_left = machine(vec![op(Divide, OpArg::Nil)]);
    nil_left.push(Nil);
    nil_left.push(Uint8(0));
    assert!(!nil_left.divides_by_zero());
    assert_eq!(nil_left.step(), Ok(MachineLoopState::Continue));
    assert!(matches!(nil_left.pop(), Ok(Nil)));

    let mut other = machine(vec![op(Add, OpArg::Nil)]);
    other.push(Uint8(1));
    other.push(Uint8(0));
    assert!(!other.divides_by_zero());
}

#[test]
fn two_machines_over_one_program_do_not_interact() {
    let first = Machine::new(fibonacci());
    let mut second = first.clone();
    second.push(Uint64(5));
    assert_eq!(second.run(), Ok(()));
    assert!(first == Machine::new(fibonacci()));
    assert!(matches!(second.pop(), Ok(Uint64(5))));
}

#[test]
fn run_for_runs_to_the_end_of_a_program() {
    let mut machine = Machine::new(fibonacci());
    machine.push(Uint64(10));
    assert_eq!(machine.run_for(1_000), Ok(MachineLoopState::Break));
    assert!(matches!(machine.pop(), Ok(Uint64(55))));
    assert_eq!(machine.pop(), Err(MachineError::StackEmpty));
}

#[test]
fn run_for_stops_after_the_steps_it_is_given() {
    let mut machine = machine(vec![
        op(Push, OpArg::Uint8(1)),
        op(Push, OpArg::Uint8(2)),
        op(Push, OpArg::Uint8(3)),
        op(Exit, OpArg::Nil),
    ]);
    assert_eq!(machine.run_for(0), Ok(MachineLoopState::Continue));
    assert_eq!(machine.pop(), Err(MachineError::StackEmpty));
    assert_eq!(machine.run_for(2), Ok(MachineLoopState::Continue));
    assert!(matches!(machine.pop(), Ok(Uint8(2))));
    assert!(matches!(machine.pop(), Ok(Uint8(1))));
    assert_eq!(machine.run_for(1), Ok(MachineLoopState::Continue));
    assert_eq!(machine.run_for(1), Ok(MachineLoopState::Break));
    assert!(matches!(machine.pop(), Ok(Uint8(3))));
}

#[test]
fn run_for_comes_back_from_a_program_without_end() {
    let mut machine = machine(vec![op(Push, OpArg::Uint8(1)), op(Jump, Instruction(0))]);
    assert_eq!(machine.run_for(7), Ok(MachineLoopState::Continue));
    for _ in 0..4 {
        assert!(matches!(machine.pop(), Ok(Uint8(1))));
    }
    assert_eq!(machine.pop(), Err(MachineError::StackEmpty));
}

#[test]
fn run_for_stops_short_of_a_division_by_zero() {
    let mut machine = machine(vec![
        op(Push, OpArg::Int32(5)),
        op(Push, OpArg::Int32(0)),
        op(Divide, OpArg::Nil),
        op(Exit, OpArg::Nil),
    ]);
    assert_eq!(machine.run_for(100), Ok(MachineLoopState::Continue));
    assert!(machine.divides_by_zero());
    assert_eq!(machine.run_for(100), Ok(MachineLoopState::Continue));
    assert!(matches!(machine.pop(), Ok(Int32(0))));
    assert!(matches!(machine.pop(), Ok(Int32(5))));
}

#[test]
fn run_for_returns_the_failure_of_a_step() {
    let mut machine = machine(vec![op(Push, OpArg::Uint8(1)), op(Return, OpArg::Nil)]);
    assert_eq!(machine.run_for(100), Err(MachineError::CallStackEmpty));
    assert!(matches!(machine.pop(), Ok(Uint8(1))));
}
