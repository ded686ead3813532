//! A small stack machine with nine registers.
//!
//! A [`program::Program`] is a sequence of fixed-width instructions
//! ([`op::Op`]). A [`machine::Machine`] executes one instruction per
//! [`machine::Machine::step`], working on an operand stack of typed values
//! ([`machine::value::MachineValue`]), a call stack and a register bank.
//!
//! Every executable function carries a contract over a mathematical model:
//! instructions and values stand for themselves, byte buffers are `Seq<u8>`,
//! and a machine is viewed as a [`machine::state::MachineState`], on which the
//! semantics of a step is a total function.

pub mod error;
pub mod machine;
pub mod op;
pub mod program;
pub mod wrap;
