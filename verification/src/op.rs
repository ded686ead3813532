//! Instructions: an operation code paired with one operand.

use vstd::prelude::*;

pub mod bytes;
pub mod codec;

verus! {

/// What an instruction does.
#[derive(PartialEq, Eq, Structural, Clone, Copy, Hash, Debug)]
pub enum OpCode {
    /// Pushes the value of the operand.
    Push,
    /// Pops a value into the register named by the operand.
    Pop,
    /// Replaces the two topmost values by their sum.
    Add,
    /// Replaces the two topmost values by their difference.
    Subtract,
    /// Replaces the two topmost values by their product.
    Multiply,
    /// Replaces the two topmost values by their quotient.
    Divide,
    /// Pops two values and jumps if they are equal.
    JumpIfEqual,
    /// Ends the execution.
    Exit,
    /// Pops a value and jumps if it is zero.
    JumpIfZero,
    /// Jumps, remembering where to come back to.
    Call,
    /// Comes back to the instruction after the latest call.
    Return,
    /// Jumps.
    Jump,
}

/// The operand of an instruction.
#[derive(PartialEq, Eq, Structural, Clone, Copy, Hash, Debug)]
pub enum OpArg {
    Register1,
    Register2,
    Register3,
    Register4,
    Register5,
    Register6,
    Register7,
    Register8,
    Register9,
    /// No operand.
    Nil,
    Uint8(u8),
    Uint16(u16),
    Uint32(u32),
    Uint64(u64),
    Int8(i8),
    Int16(i16),
    Int32(i32),
    Int64(i64),
    /// The index of an instruction, as the target of a jump or a call.
    Instruction(u64),
}

/// One instruction.
#[derive(PartialEq, Eq, Structural, Clone, Copy, Hash, Debug)]
pub struct Op {
    pub code: OpCode,
    pub arg: OpArg,
}

impl OpArg {
    /// The tag that identifies the kind of operand: 0 to 8 for the registers in
    /// order, then one tag for each other kind.
    pub open spec fn spec_id(self) -> u8 {
        match self {
            OpArg::Register1 => 0,
            OpArg::Register2 => 1,
            OpArg::Register3 => 2,
            OpArg::Register4 => 3,
            OpArg::Register5 => 4,
            OpArg::Register6 => 5,
            OpArg::Register7 => 6,
            OpArg::Register8 => 7,
            OpArg::Register9 => 8,
            OpArg::Nil => 9,
            OpArg::Uint8(_) => 10,
            OpArg::Uint16(_) => 11,
            OpArg::Uint32(_) => 12,
            OpArg::Uint64(_) => 13,
            OpArg::Int8(_) => 14,
            OpArg::Int16(_) => 15,
            OpArg::Int32(_) => 16,
            OpArg::Int64(_) => 17,
            OpArg::Instruction(_) => 18,
        }
    }

    /// Whether the operand names a register.
    pub open spec fn is_register(self) -> bool {
        self.spec_id() < 9
    }

    /// The tag of this operand.
    pub fn id(&self) -> (id: u8)
        ensures
            id == self.spec_id(),
    {
        match self {
            OpArg::Register1 => 0,
            OpArg::Register2 => 1,
            OpArg::Register3 => 2,
            OpArg::Register4 => 3,
            OpArg::Register5 => 4,
            OpArg::Register6 => 5,
            OpArg::Register7 => 6,
            OpArg::Register8 => 7,
            OpArg::Register9 => 8,
            OpArg::Nil => 9,
            OpArg::Uint8(_) => 10,
            OpArg::Uint16(_) => 11,
            OpArg::Uint32(_) => 12,
            OpArg::Uint64(_) => 13,
            OpArg::Int8(_) => 14,
            OpArg::Int16(_) => 15,
            OpArg::Int32(_) => 16,
            OpArg::Int64(_) => 17,
            OpArg::Instruction(_) => 18,
        }
    }
}

impl Op {
    /// The instruction with the given code and operand.
    pub fn new(code: OpCode, arg: OpArg) -> (op: Self)
        ensures
            op == (Op { code, arg }),
    {
        Self { code, arg }
    }
}

} // verus!
