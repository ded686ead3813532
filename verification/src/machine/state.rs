//! The machine as a mathematical state, and what a step does to it.
//!
//! `MachineState::step` is the semantics of the machine: a total function
//! from a state to the state after one instruction and the outcome of that
//! instruction. `MachineState::run` iterates it.

use crate::error::MachineError;
use crate::machine::value::MachineValue;
use crate::machine::{MachineLoopState, RegisterBank};
use crate::op::{Op, OpArg, OpCode};
use crate::wrap::{wrap_u64, wrap_usize};
use vstd::prelude::*;

verus! {

/// What a step leaves behind: the state after it, and its outcome.
pub type Transition = (MachineState, Result<MachineLoopState, MachineError>);

/// Everything a machine consists of.
#[verifier::ext_equal]
pub struct MachineState {
    /// The instructions being executed.
    pub program: Seq<Op>,
    /// The operand stack, its top last.
    pub stack: Seq<MachineValue>,
    /// The call stack, the latest call last.
    pub calls: Seq<MachineValue>,
    /// The values of the nine registers.
    pub registers: Seq<MachineValue>,
    /// The index of the instruction to execute next.
    pub current: usize,
}

impl MachineState {
    /// The state of a machine that has not yet executed anything of
    /// `program`: empty stacks, empty registers, and the first instruction
    /// next.
    pub open spec fn initial(program: Seq<Op>) -> MachineState {
        MachineState {
            program,
            stack: Seq::empty(),
            calls: Seq::empty(),
            registers: RegisterBank::cleared(),
            current: 0,
        }
    }

    /// What holds of the state of every machine: the program can be
    /// indexed, there are nine registers, and the call stack holds return
    /// addresses only.
    pub open spec fn well_formed(self) -> bool {
        &&& self.program.len() <= usize::MAX
        &&& self.registers.len() == 9
        &&& forall|i: int| 0 <= i < self.calls.len() ==> self.calls[i] is ReturnAddress
    }

    /// The state with the next instruction one further, to go on from.
    pub open spec fn advance(self) -> Transition {
        (
            MachineState { current: (self.current + 1) as usize, ..self },
            Ok(MachineLoopState::Continue),
        )
    }

    /// The state with the instruction that `arg` points to next, to go on
    /// from. Where `arg` is no instruction index, the step fails and the
    /// state stays as it is.
    pub open spec fn jump(self, arg: OpArg) -> Transition {
        match arg {
            OpArg::Instruction(index) => (
                MachineState { current: wrap_usize(index as int), ..self },
                Ok(MachineLoopState::Continue),
            ),
            _ => (self, Err(MachineError::InstructionExpected)),
        }
    }

    /// The state with `stack` as its operand stack.
    pub open spec fn with_stack(self, stack: Seq<MachineValue>) -> MachineState {
        MachineState { stack, ..self }
    }

    /// Pushing the value of `arg`; an operand without a value fails, and
    /// leaves the state as it is.
    pub open spec fn step_push(self, arg: OpArg) -> Transition {
        match MachineValue::spec_of(arg, self.registers) {
            Some(value) => self.with_stack(self.stack.push(value)).advance(),
            None => (self, Err(MachineError::ValueExpected)),
        }
    }

    /// Popping the top of the stack into the register named by `arg`. Where
    /// `arg` names no register, the step fails and the value is lost.
    pub open spec fn step_pop(self, arg: OpArg) -> Transition {
        if self.stack.len() == 0 {
            (self, Err(MachineError::StackEmpty))
        } else {
            let popped = self.with_stack(self.stack.drop_last());
            if arg.is_register() {
                MachineState {
                    registers: self.registers.update(arg.spec_id() as int, self.stack.last()),
                    ..popped
                }.advance()
            } else {
                (popped, Err(MachineError::RegisterExpected))
            }
        }
    }

    /// What one of the four arithmetic instructions computes from the
    /// operand `left`, pushed first, and the operand `right`, pushed last.
    pub open spec fn compute(
        code: OpCode,
        left: MachineValue,
        right: MachineValue,
    ) -> MachineValue {
        match code {
            OpCode::Add => left.spec_add(right),
            OpCode::Subtract => left.spec_sub(right),
            OpCode::Multiply => left.spec_mul(right),
            _ => left.spec_div(right),
        }
    }

    /// Replacing the two topmost values by what `code` computes from them.
    /// With fewer than two values the step fails, and leaves the stack empty.
    pub open spec fn step_arithmetic(self, code: OpCode) -> Transition {
        if self.stack.len() < 2 {
            (self.with_stack(Seq::empty()), Err(MachineError::StackEmpty))
        } else {
            let right = self.stack.last();
            let left = self.stack.drop_last().last();
            let rest = self.stack.drop_last().drop_last();
            self.with_stack(rest.push(Self::compute(code, left, right))).advance()
        }
    }

    /// Popping two values and jumping to `arg` if the one pushed first
    /// equals the one pushed last; the two values are gone either way. With
    /// fewer than two values the step fails, and leaves the stack empty.
    pub open spec fn step_jump_if_equal(self, arg: OpArg) -> Transition {
        if self.stack.len() < 2 {
            (self.with_stack(Seq::empty()), Err(MachineError::StackEmpty))
        } else {
            let right = self.stack.last();
            let left = self.stack.drop_last().last();
            let popped = self.with_stack(self.stack.drop_last().drop_last());
            if left.equals(right) {
                popped.jump(arg)
            } else {
                popped.advance()
            }
        }
    }

    /// Popping a value and jumping to `arg` if it is zero as a 64-bit
    /// unsigned integer.
    pub open spec fn step_jump_if_zero(self, arg: OpArg) -> Transition {
        if self.stack.len() == 0 {
            (self, Err(MachineError::StackEmpty))
        } else {
            let popped = self.with_stack(self.stack.drop_last());
            if wrap_u64(self.stack.last().numeric()) == 0 {
                popped.jump(arg)
            } else {
                popped.advance()
            }
        }
    }

    /// Jumping to `arg`, with the index of the instruction after this one on
    /// the call stack.
    pub open spec fn step_call(self, arg: OpArg) -> Transition {
        match arg {
            OpArg::Instruction(_) => MachineState {
                calls: self.calls.push(MachineValue::ReturnAddress((self.current + 1) as usize)),
                ..self
            }.jump(arg),
            _ => (self, Err(MachineError::InstructionExpected)),
        }
    }

    /// Going back to where the top of the call stack says. With no call
    /// pending the step fails; with something else than a return address
    /// there it fails too, and that value is gone.
    pub open spec fn step_return(self) -> Transition {
        if self.calls.len() == 0 {
            (self, Err(MachineError::CallStackEmpty))
        } else {
            let popped = MachineState { calls: self.calls.drop_last(), ..self };
            match self.calls.last() {
                MachineValue::ReturnAddress(index) => (
                    MachineState { current: index, ..popped },
                    Ok(MachineLoopState::Continue),
                ),
                _ => (popped, Err(MachineError::InstructionExpected)),
            }
        }
    }

    /// One step: the state after executing the instruction that is next, and
    /// whether the machine goes on, has ended, or has failed. With no
    /// instruction there, the step fails and the state stays as it is. Of a
    /// step that divides by zero this says nothing: see `divides_by_zero`.
    pub open spec fn step(self) -> Transition {
        if self.current >= self.program.len() {
            (self, Err(MachineError::InstructionOverflow))
        } else {
            let op = self.program[self.current as int];
            match op.code {
                OpCode::Push => self.step_push(op.arg),
                OpCode::Pop => self.step_pop(op.arg),
                OpCode::Add | OpCode::Subtract | OpCode::Multiply | OpCode::Divide => {
                    self.step_arithmetic(op.code)
                },
                OpCode::JumpIfEqual => self.step_jump_if_equal(op.arg),
                OpCode::Jump => self.jump(op.arg),
                OpCode::JumpIfZero => self.step_jump_if_zero(op.arg),
                OpCode::Exit => (self, Ok(MachineLoopState::Break)),
                OpCode::Call => self.step_call(op.arg),
                OpCode::Return => self.step_return(),
            }
        }
    }

    /// Whether the next step is a division by zero.
    pub open spec fn divides_by_zero(self) -> bool {
        &&& self.current < self.program.len()
        &&& self.program[self.current as int].code == OpCode::Divide
        &&& self.stack.len() >= 2
        &&& self.stack.drop_last().last().spec_divides_by_zero(self.stack.last())
    }

    /// Whether the machine ends or fails within `steps` steps, without
    /// dividing by zero on the way.
    pub open spec fn halts_within(self, steps: nat) -> bool
        decreases steps,
    {
        &&& steps > 0
        &&& !self.divides_by_zero()
        &&& self.step().1 == Ok::<MachineLoopState, MachineError>(MachineLoopState::Continue)
            ==> self.step().0.halts_within((steps - 1) as nat)
    }

    /// Running the machine for `steps` steps at most, and stopping short of
    /// a division by zero: the state it is left in, and the outcome of the
    /// step that ended the program or failed, or `Continue` where the machine
    /// was stopped before that.
    pub open spec fn run_for(self, steps: nat) -> Transition
        decreases steps,
    {
        if steps == 0 || self.divides_by_zero() {
            (self, Ok(MachineLoopState::Continue))
        } else {
            match self.step().1 {
                Ok(MachineLoopState::Continue) => self.step().0.run_for((steps - 1) as nat),
                _ => self.step(),
            }
        }
    }

    /// Running the machine until it ends or fails, for `steps` steps at most:
    /// the state it is left in, and the failure if there was one.
    pub open spec fn run(self, steps: nat) -> (MachineState, Result<(), MachineError>)
        decreases steps,
    {
        if steps == 0 {
            (self, Ok(()))
        } else {
            match self.step().1 {
                Ok(MachineLoopState::Continue) => self.step().0.run((steps - 1) as nat),
                Ok(MachineLoopState::Break) => (self.step().0, Ok(())),
                Err(error) => (self.step().0, Err(error)),
            }
        }
    }
}

/// A step keeps a well-formed state well-formed, and keeps the program.
pub proof fn lemma_step_well_formed(state: MachineState)
    requires
        state.well_formed(),
    ensures
        state.step().0.well_formed(),
        state.step().0.program == state.program,
{
}

/// A machine that halts within some number of steps halts within any larger
/// number, and where it halts does not depend on the number.
pub proof fn lemma_run_is_determined(state: MachineState, fewer: nat, more: nat)
    requires
        state.halts_within(fewer),
        fewer <= more,
    ensures
        state.halts_within(more),
        state.run(fewer) == state.run(more),
    decreases fewer,
{
    if state.step().1 == Ok::<MachineLoopState, MachineError>(MachineLoopState::Continue) {
        lemma_run_is_determined(state.step().0, (fewer - 1) as nat, (more - 1) as nat);
    }
}

/// Where a machine halts within `enough` steps, running it for any number of
/// steps within which it halts leaves it as running it for `enough` steps
/// does.
pub proof fn lemma_run_agrees(state: MachineState, enough: nat)
    requires
        state.halts_within(enough),
    ensures
        forall|steps: nat| #[trigger]
            state.halts_within(steps) ==> state.run(steps) == state.run(enough),
{
    assert forall|steps: nat| #[trigger] state.halts_within(steps) implies state.run(steps)
        == state.run(enough) by {
        if steps <= enough {
            lemma_run_is_determined(state, steps, enough);
        } else {
            lemma_run_is_determined(state, enough, steps);
        }
    }
}

/// Where a machine halts within `steps` steps, running it for `steps` steps
/// at most runs it to its end: it is left as `run` says, with `Break` for a
/// program that ended and the failure for one that failed.
pub proof fn lemma_run_for_reaches_the_end(state: MachineState, steps: nat)
    requires
        state.halts_within(steps),
    ensures
        state.run_for(steps).0 == state.run(steps).0,
        state.run_for(steps).1 == match state.run(steps).1 {
            Ok(_) => Ok::<MachineLoopState, MachineError>(MachineLoopState::Break),
            Err(error) => Err::<MachineLoopState, MachineError>(error),
        },
    decreases steps,
{
    if state.step().1 == Ok::<MachineLoopState, MachineError>(MachineLoopState::Continue) {
        lemma_run_for_reaches_the_end(state.step().0, (steps - 1) as nat);
    }
}

/// With the program counter past the last instruction, a step fails with
/// `InstructionOverflow` and changes nothing.
pub proof fn lemma_overflow_is_reported(state: MachineState)
    requires
        state.current >= state.program.len(),
    ensures
        state.step() == (
            state,
            Err::<MachineLoopState, MachineError>(MachineError::InstructionOverflow),
        ),
{
}

/// A call and the return that answers it: where `call` executes a call, and
/// `back` executes a return with the call stack as that call left it,
/// execution resumes at the instruction after the call, and the call stack
/// is as it was before the call.
pub proof fn lemma_return_resumes_after_call(call: MachineState, back: MachineState)
    requires
        call.current < call.program.len() <= usize::MAX,
        call.program[call.current as int].code == OpCode::Call,
        call.program[call.current as int].arg is Instruction,
        back.current < back.program.len(),
        back.program[back.current as int].code == OpCode::Return,
        back.calls == call.step().0.calls,
    ensures
        call.step().1 == Ok::<MachineLoopState, MachineError>(MachineLoopState::Continue),
        back.step().1 == Ok::<MachineLoopState, MachineError>(MachineLoopState::Continue),
        back.step().0.current == call.current + 1,
        back.step().0.calls == call.calls,
{
    assert(back.calls.drop_last() =~= call.calls);
}

} // verus!
