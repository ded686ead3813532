//! The failures an execution step can report.

use vstd::prelude::*;

verus! {

/// What a machine operation gives: its result, or why there is none.
pub type Result<T> = std::result::Result<T, MachineError>;

/// Why a machine operation could not be carried out.
#[derive(PartialEq, Eq, Structural, Debug)]
pub enum MachineError {
    /// A value was popped from the operand stack while it was empty.
    StackEmpty,
    /// A jump target or a return address was required, and something else was found.
    InstructionExpected,
    /// The program counter points past the last instruction.
    InstructionOverflow,
    /// An operand that carries no value was pushed.
    ValueExpected,
    /// A value was to be stored, and the destination is no register.
    RegisterExpected,
    /// A return was executed with no call pending.
    CallStackEmpty,
}

impl Clone for MachineError {
    fn clone(&self) -> (copy: Self)
        ensures
            copy == *self,
    {
        match self {
            MachineError::StackEmpty => MachineError::StackEmpty,
            MachineError::InstructionExpected => MachineError::InstructionExpected,
            MachineError::InstructionOverflow => MachineError::InstructionOverflow,
            MachineError::ValueExpected => MachineError::ValueExpected,
            MachineError::RegisterExpected => MachineError::RegisterExpected,
            MachineError::CallStackEmpty => MachineError::CallStackEmpty,
        }
    }
}

impl MachineError {
    /// The text that describes this error.
    pub open spec fn message(self) -> Seq<char> {
        match self {
            MachineError::StackEmpty => "stack empty"@,
            MachineError::InstructionExpected => "instruction expected"@,
            MachineError::InstructionOverflow => "instruction overflow"@,
            MachineError::ValueExpected => "value expected"@,
            MachineError::RegisterExpected => "register expected"@,
            MachineError::CallStackEmpty => "call stack empty"@,
        }
    }

    /// Renders the error as text.
    pub fn to_string(&self) -> (text: String)
        ensures
            text@ == self.message(),
    {
        match self {
            MachineError::StackEmpty => "stack empty".to_owned(),
            MachineError::InstructionExpected => "instruction expected".to_owned(),
            MachineError::InstructionOverflow => "instruction overflow".to_owned(),
            MachineError::ValueExpected => "value expected".to_owned(),
            MachineError::RegisterExpected => "register expected".to_owned(),
            MachineError::CallStackEmpty => "call stack empty".to_owned(),
        }
    }
}

} // verus!
