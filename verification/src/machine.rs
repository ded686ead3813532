//! The machine: registers, stacks and the execution of instructions.

use crate::error::MachineError;
use crate::machine::state::{lemma_run_agrees, lemma_step_well_formed, MachineState};
use crate::machine::value::MachineValue;
use crate::op::{Op, OpArg, OpCode};
use crate::program::Program;
use crate::wrap::lemma_cast_u64;
use vstd::prelude::*;

pub mod state;
pub mod value;

verus! {

/// Whether the machine goes on after a step.
#[derive(Clone, Copy, Debug, PartialEq, Eq, Structural)]
pub enum MachineLoopState {
    /// There is more to execute.
    Continue,
    /// The program has ended.
    Break,
}

/// The nine registers of a machine.
///
/// The view of a bank is the sequence of the nine values it holds, that of
/// the first register at index 0.
#[derive(PartialEq, Eq, Clone, Copy, Debug)]
pub struct RegisterBank {
    registers: [MachineValue; 9],
}

impl View for RegisterBank {
    type V = Seq<MachineValue>;

    closed spec fn view(&self) -> Seq<MachineValue> {
        self.registers@
    }
}

impl Default for RegisterBank {
    fn default() -> (bank: Self)
        ensures
            bank@ == RegisterBank::cleared(),
    {
        let bank = RegisterBank { registers: [MachineValue::Nil;9] };
        assert(bank@ =~= RegisterBank::cleared());
        bank
    }
}

impl RegisterBank {
    /// Nine registers that hold nothing.
    pub open spec fn cleared() -> Seq<MachineValue> {
        Seq::new(9, |i: int| MachineValue::Nil)
    }

    /// What loading `arg` from the registers `registers` gives: the value of
    /// the register that `arg` names, and nothing where it names none.
    pub open spec fn spec_load(registers: Seq<MachineValue>, arg: OpArg) -> Option<MachineValue> {
        if arg.is_register() {
            Some(registers[arg.spec_id() as int])
        } else {
            None
        }
    }

    /// A bank holds nine values.
    pub proof fn lemma_len(self)
        ensures
            self@.len() == 9,
    {
    }

    /// A bank whose registers hold nothing.
    pub fn new() -> (bank: RegisterBank)
        ensures
            bank@ == RegisterBank::cleared(),
    {
        Self::default()
    }

    /// Empties every register.
    pub fn reset(&mut self)
        ensures
            final(self)@ == RegisterBank::cleared(),
    {
        self.registers = [MachineValue::Nil;9];
        assert(self@ =~= RegisterBank::cleared());
    }

    /// The value of the register that `arg` names.
    #[inline]
    pub fn load(&self, arg: OpArg) -> (value: Option<MachineValue>)
        ensures
            value == RegisterBank::spec_load(self@, arg),
    {
        match arg {
            OpArg::Register1 => Some(self.registers[0]),
            OpArg::Register2 => Some(self.registers[1]),
            OpArg::Register3 => Some(self.registers[2]),
            OpArg::Register4 => Some(self.registers[3]),
            OpArg::Register5 => Some(self.registers[4]),
            OpArg::Register6 => Some(self.registers[5]),
            OpArg::Register7 => Some(self.registers[6]),
            OpArg::Register8 => Some(self.registers[7]),
            OpArg::Register9 => Some(self.registers[8]),
            _ => None,
        }
    }

    /// Puts `value` into the register that `arg` names. Where `arg` names no
    /// register, nothing is stored.
    #[inline]
    pub fn store(&mut self, arg: OpArg, value: MachineValue) -> (stored: Result<(), MachineError>)
        ensures
            arg.is_register() ==> stored == Ok::<(), MachineError>(()) && final(self)@ == old(
                self,
            )@.update(arg.spec_id() as int, value),
            !arg.is_register() ==> stored == Err::<(), MachineError>(
                MachineError::RegisterExpected,
            ) && final(self)@ == old(self)@,
    {
        match arg {
            OpArg::Register1 => self.registers[0] = value,
            OpArg::Register2 => self.registers[1] = value,
            OpArg::Register3 => self.registers[2] = value,
            OpArg::Register4 => self.registers[3] = value,
            OpArg::Register5 => self.registers[4] = value,
            OpArg::Register6 => self.registers[5] = value,
            OpArg::Register7 => self.registers[6] = value,
            OpArg::Register8 => self.registers[7] = value,
            OpArg::Register9 => self.registers[8] = value,
            _ => return Err(MachineError::RegisterExpected),
        }
        Ok(())
    }
}

/// A machine that executes a program.
///
/// The view of a machine is its [`MachineState`]; what its operations do is
/// stated on that state.
#[derive(PartialEq, Eq, Debug)]
pub struct Machine {
    program: Program,
    stack: Vec<MachineValue>,
    calls: Vec<MachineValue>,
    bank: RegisterBank,
    current: usize,
}

impl View for Machine {
    type V = MachineState;

    closed spec fn view(&self) -> MachineState {
        MachineState {
            program: self.program@,
            stack: self.stack@,
            calls: self.calls@,
            registers: self.bank@,
            current: self.current,
        }
    }
}

impl Clone for Machine {
    /// A machine in the same state, which from then on goes its own way.
    fn clone(&self) -> (copy: Self)
        ensures
            copy@ == self@,
    {
        let stack = self.stack.clone();
        let calls = self.calls.clone();
        assert(stack@ =~= self.stack@);
        assert(calls@ =~= self.calls@);
        Machine {
            program: self.program.clone(),
            stack,
            calls,
            bank: self.bank,
            current: self.current,
        }
    }
}

impl Machine {
    /// Every machine has nine registers and a program that can be indexed.
    proof fn lemma_shape(&self)
        ensures
            self@.registers.len() == 9,
            self@.program.len() <= usize::MAX,
    {
        self.bank.lemma_len();
        match self.program {
            Program::Owned(ops) => {
                assert(ops.len() == ops@.len());
            },
            Program::Static(ops) => {
                assert(ops.len() == ops@.len());
            },
        }
    }

    /// A machine that is to execute `program`, with nothing executed yet.
    pub fn new(program: Program) -> (machine: Self)
        ensures
            machine@ == MachineState::initial(program@),
            machine@.well_formed(),
    {
        let machine = Self {
            program,
            stack: Vec::new(),
            calls: Vec::new(),
            bank: RegisterBank::new(),
            current: 0,
        };
        proof {
            machine.lemma_shape();
        }
        machine
    }

    /// Makes the instruction that the operand of `op` points to the next
    /// one.
    fn jmp(&mut self, op: &Op) -> (jumped: Result<(), MachineError>)
        ensures
            final(self)@ == old(self)@.jump(op.arg).0,
            op.arg is Instruction ==> jumped == Ok::<(), MachineError>(()),
            !(op.arg is Instruction) ==> jumped == Err::<(), MachineError>(
                MachineError::InstructionExpected,
            ),
    {
        self.current = match op.arg {
            OpArg::Instruction(instruction) => {
                proof {
                    lemma_cast_u64(instruction);
                }
                instruction as usize
            },
            _ => return Err(MachineError::InstructionExpected),
        };
        Ok(())
    }

    /// Jumps to where the operand of `op` points, and puts the index of the
    /// instruction after the current one on the call stack.
    fn call(&mut self, op: &Op) -> (called: Result<(), MachineError>)
        requires
            old(self)@.current < old(self)@.program.len(),
        ensures
            final(self)@ == old(self)@.step_call(op.arg).0,
            op.arg is Instruction ==> called == Ok::<(), MachineError>(()),
            !(op.arg is Instruction) ==> called == Err::<(), MachineError>(
                MachineError::InstructionExpected,
            ),
    {
        proof {
            self.lemma_shape();
        }
        let current = self.current + 1;
        self.jmp(op)?;
        self.calls.push(MachineValue::ReturnAddress(current));
        Ok(())
    }

    /// Goes back to where the top of the call stack says.
    fn ret(&mut self) -> (returned: Result<(), MachineError>)
        ensures
            final(self)@ == old(self)@.step_return().0,
            old(self)@.step_return().1 is Ok ==> returned == Ok::<(), MachineError>(()),
            old(self)@.step_return().1 matches Err(error) ==> returned == Err::<(), MachineError>(
                error,
            ),
    {
        let value = self.calls.pop().ok_or(MachineError::CallStackEmpty)?;
        self.current = match value {
            MachineValue::ReturnAddress(value) => value,
            _ => return Err(MachineError::InstructionExpected),
        };
        Ok(())
    }

    /// Whether the next step would divide by zero, which the machine cannot
    /// do.
    pub fn divides_by_zero(&self) -> (divides: bool)
        ensures
            divides == self@.divides_by_zero(),
    {
        let ops = self.program.ops();
        let depth = self.stack.len();
        if self.current >= ops.len() || depth < 2 {
            return false;
        }
        match ops[self.current].code {
            OpCode::Divide => self.stack[depth - 2].divides_by_zero(self.stack[depth - 1]),
            _ => false,
        }
    }

    /// Executes the next instruction.
    ///
    /// The state after the step and its outcome are those that
    /// [`MachineState::step`] gives: `Continue` where there is more to
    /// execute, `Break` where the program has ended, and an error where the
    /// instruction could not be carried out. What an instruction has taken
    /// from the stacks before it failed is gone. The step must not divide by
    /// zero: [`Machine::divides_by_zero`] tells whether it would.
    pub fn step(&mut self) -> (outcome: Result<MachineLoopState, MachineError>)
        requires
            !old(self)@.divides_by_zero(),
        ensures
            final(self)@ == old(self)@.step().0,
            outcome == old(self)@.step().1,
            old(self)@.well_formed() ==> final(self)@.well_formed(),
    {
        proof {
            self.lemma_shape();
            if self@.well_formed() {
                lemma_step_well_formed(self@);
            }
        }
        let op = *self.program.ops().get(self.current).ok_or(MachineError::InstructionOverflow)?;
        match op.code {
            OpCode::Push => {
                let value = MachineValue::of(op.arg, &self.bank).ok_or(
                    MachineError::ValueExpected,
                )?;
                self.stack.push(value);
            },
            OpCode::Pop => {
                let value = self.stack.pop().ok_or(MachineError::StackEmpty)?;
                self.bank.store(op.arg, value)?;
            },
            OpCode::Add | OpCode::Subtract | OpCode::Multiply | OpCode::Divide => {
                let value1 = self.pop()?;
                let value2 = self.pop()?;
                let result = match op.code {
                    OpCode::Add => value2.add(value1),
                    OpCode::Subtract => value2.sub(value1),
                    OpCode::Multiply => value2.mul(value1),
                    _ => value2.div(value1),
                };
                self.stack.push(result);
            },
            OpCode::JumpIfEqual => {
                let value1 = self.pop()?;
                let value2 = self.pop()?;
                if value2 == value1 {
                    self.jmp(&op)?;
                    return Ok(MachineLoopState::Continue);
                }
            },
            OpCode::Jump => {
                self.jmp(&op)?;
                return Ok(MachineLoopState::Continue);
            },
            OpCode::JumpIfZero => {
                let value = self.stack.pop().ok_or(MachineError::StackEmpty)?;
                if value.as_u64() == 0 {
                    self.jmp(&op)?;
                    return Ok(MachineLoopState::Continue);
                }
            },
            OpCode::Exit => {
                return Ok(MachineLoopState::Break);
            },
            OpCode::Call => {
                self.call(&op)?;
                return Ok(MachineLoopState::Continue);
            },
            OpCode::Return => {
                self.ret()?;
                return Ok(MachineLoopState::Continue);
            },
        }
        self.current += 1;
        Ok(MachineLoopState::Continue)
    }

    /// Executes up to `steps` instructions, and stops short of a division by
    /// zero.
    ///
    /// The outcome is `Break` where the program has ended and the failure
    /// where an instruction has failed. It is `Continue` where the machine
    /// was stopped before that: after `steps` steps, or ahead of a division
    /// by zero, which [`Machine::divides_by_zero`] then tells.
    pub fn run_for(&mut self, steps: u64) -> (outcome: Result<MachineLoopState, MachineError>)
        ensures
            final(self)@ == old(self)@.run_for(steps as nat).0,
            outcome == old(self)@.run_for(steps as nat).1,
            old(self)@.well_formed() ==> final(self)@.well_formed(),
    {
        let mut left = steps;
        while left > 0
            invariant
                old(self)@.run_for(steps as nat) == self@.run_for(left as nat),
                old(self)@.well_formed() ==> self@.well_formed(),
            decreases left,
        {
            if self.divides_by_zero() {
                return Ok(MachineLoopState::Continue);
            }
            match self.step() {
                Ok(MachineLoopState::Continue) => {
                    left -= 1;
                },
                outcome => {
                    return outcome;
                },
            }
        }
        Ok(MachineLoopState::Continue)
    }

    /// Executes instructions until the program ends or an instruction fails.
    ///
    /// The program must come to an end, or to a failure, after some number
    /// of steps, none of which divides by zero. The machine is then left as
    /// [`MachineState::run`] says, and the failure, if any, is returned. Of a
    /// program that is not known to end, [`Machine::run_for`] executes as
    /// many steps as it is given.
    pub fn run(&mut self) -> (outcome: Result<(), MachineError>)
        requires
            exists|steps: nat| old(self)@.halts_within(steps),
        ensures
            forall|steps: nat| #[trigger]
                old(self)@.halts_within(steps) ==> old(self)@.run(steps) == (final(self)@, outcome),
            old(self)@.well_formed() ==> final(self)@.well_formed(),
    {
        let ghost enough = choose|steps: nat| self@.halts_within(steps);
        let ghost mut left = enough;
        loop
            invariant
                self@.halts_within(left),
                old(self)@.halts_within(enough),
                old(self)@.run(enough) == self@.run(left),
                old(self)@.well_formed() ==> self@.well_formed(),
            decreases left,
        {
            match self.step() {
                Ok(MachineLoopState::Continue) => {
                    proof {
                        left = (left - 1) as nat;
                    }
                },
                Ok(MachineLoopState::Break) => {
                    proof {
                        lemma_run_agrees(old(self)@, enough);
                    }
                    return Ok(());
                },
                Err(error) => {
                    proof {
                        lemma_run_agrees(old(self)@, enough);
                    }
                    return Err(error);
                },
            }
        }
    }

    /// Puts `value` on top of the operand stack.
    pub fn push(&mut self, value: MachineValue)
        ensures
            final(self)@ == old(self)@.with_stack(old(self)@.stack.push(value)),
    {
        self.stack.push(value);
    }

    /// Takes the top of the operand stack.
    pub fn pop(&mut self) -> (popped: Result<MachineValue, MachineError>)
        ensures
            old(self)@.stack.len() == 0 ==> popped == Err::<MachineValue, MachineError>(
                MachineError::StackEmpty,
            ) && final(self)@ == old(self)@,
            old(self)@.stack.len() > 0 ==> popped == Ok::<MachineValue, MachineError>(
                old(self)@.stack.last(),
            ) && final(self)@ == old(self)@.with_stack(old(self)@.stack.drop_last()),
    {
        self.stack.pop().ok_or(MachineError::StackEmpty)
    }

    /// Brings the machine back to the state in which it was made: the
    /// stacks and the registers empty, the first instruction next, and the
    /// program kept.
    pub fn reset(&mut self)
        ensures
            final(self)@ == MachineState::initial(old(self)@.program),
            final(self)@.well_formed(),
    {
        if !self.stack.is_empty() {
            self.stack.clear();
        }
        if !self.calls.is_empty() {
            self.calls.clear();
        }
        self.current = 0;
        self.bank.reset();
        proof {
            self.lemma_shape();
        }
    }
}

} // verus!
