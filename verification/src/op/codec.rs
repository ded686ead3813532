//! The binary form of instructions.
//!
//! An instruction is a record of ten bytes: the tag of its code, the tag of
//! its operand, and eight bytes of payload, in which an immediate operand
//! lies in little-endian order, followed by zeros.

use crate::op::bytes::{
    le_bytes, le_value, lemma_le_bytes_len, lemma_le_bytes_padded, lemma_le_value_bound,
    lemma_le_value_of_bytes, radix, read_le, write_le, zeros,
};
use crate::op::{Op, OpArg, OpCode};
use crate::wrap::{
    lemma_cast_i16, lemma_cast_i32, lemma_cast_i64, lemma_cast_i8, lemma_cast_u16, lemma_cast_u32,
    lemma_cast_u64, lemma_cast_u8, wrap_i16, wrap_i32, wrap_i64, wrap_i8, wrap_u16, wrap_u32,
    wrap_u64, wrap_u8,
};
use vstd::prelude::*;

verus! {

impl OpCode {
    /// The tag of this code.
    pub open spec fn spec_encode(self) -> u8 {
        match self {
            OpCode::Push => 0,
            OpCode::Pop => 1,
            OpCode::Add => 2,
            OpCode::Subtract => 3,
            OpCode::Multiply => 4,
            OpCode::Divide => 5,
            OpCode::JumpIfEqual => 6,
            OpCode::Exit => 7,
            OpCode::JumpIfZero => 8,
            OpCode::Call => 9,
            OpCode::Return => 10,
            OpCode::Jump => 11,
        }
    }

    /// The code with the given tag, if there is one.
    pub open spec fn spec_decode(id: u8) -> Option<OpCode> {
        match id {
            0 => Some(OpCode::Push),
            1 => Some(OpCode::Pop),
            2 => Some(OpCode::Add),
            3 => Some(OpCode::Subtract),
            4 => Some(OpCode::Multiply),
            5 => Some(OpCode::Divide),
            6 => Some(OpCode::JumpIfEqual),
            7 => Some(OpCode::Exit),
            8 => Some(OpCode::JumpIfZero),
            9 => Some(OpCode::Call),
            10 => Some(OpCode::Return),
            11 => Some(OpCode::Jump),
            _ => None,
        }
    }

    /// How many bytes the tag of a code takes.
    pub fn encoded_len() -> (len: usize)
        ensures
            len == 1,
    {
        std::mem::size_of::<u8>()
    }

    /// Reads a code from its tag. Every code has a tag, the tags 0 to 11 are
    /// taken, and no other byte is a tag.
    pub fn decode(id: u8) -> (code: Option<OpCode>)
        ensures
            code == Self::spec_decode(id),
            code is Some <==> id <= 11,
    {
        match id {
            0 => Some(OpCode::Push),
            1 => Some(OpCode::Pop),
            2 => Some(OpCode::Add),
            3 => Some(OpCode::Subtract),
            4 => Some(OpCode::Multiply),
            5 => Some(OpCode::Divide),
            6 => Some(OpCode::JumpIfEqual),
            7 => Some(OpCode::Exit),
            8 => Some(OpCode::JumpIfZero),
            9 => Some(OpCode::Call),
            10 => Some(OpCode::Return),
            11 => Some(OpCode::Jump),
            _ => None,
        }
    }

    /// The tag of this code.
    pub fn encode(&self) -> (id: u8)
        ensures
            id == self.spec_encode(),
    {
        match self {
            OpCode::Push => 0,
            OpCode::Pop => 1,
            OpCode::Add => 2,
            OpCode::Subtract => 3,
            OpCode::Multiply => 4,
            OpCode::Divide => 5,
            OpCode::JumpIfEqual => 6,
            OpCode::Exit => 7,
            OpCode::JumpIfZero => 8,
            OpCode::Call => 9,
            OpCode::Return => 10,
            OpCode::Jump => 11,
        }
    }
}

impl OpArg {
    /// How many bytes the immediate value of the operand takes: none where it
    /// has no value of its own.
    pub open spec fn payload_width(self) -> nat {
        match self {
            OpArg::Uint8(_) | OpArg::Int8(_) => 1,
            OpArg::Uint16(_) | OpArg::Int16(_) => 2,
            OpArg::Uint32(_) | OpArg::Int32(_) => 4,
            OpArg::Uint64(_) | OpArg::Int64(_) | OpArg::Instruction(_) => 8,
            _ => 0,
        }
    }

    /// The immediate value of the operand as an unsigned number: a signed
    /// value stands in two's complement at its own width.
    pub open spec fn payload(self) -> nat {
        match self {
            OpArg::Uint8(value) => value as nat,
            OpArg::Uint16(value) => value as nat,
            OpArg::Uint32(value) => value as nat,
            OpArg::Uint64(value) => value as nat,
            OpArg::Int8(value) => wrap_u8(value as int) as nat,
            OpArg::Int16(value) => wrap_u16(value as int) as nat,
            OpArg::Int32(value) => wrap_u32(value as int) as nat,
            OpArg::Int64(value) => wrap_u64(value as int) as nat,
            OpArg::Instruction(index) => index as nat,
            _ => 0,
        }
    }

    /// The payload laid over `len` bytes: the digits of the immediate value,
    /// and zeros from there to the end.
    pub open spec fn spec_encode_value(self, len: nat) -> Seq<u8> {
        le_bytes(self.payload(), self.payload_width()) + zeros(
            (len - self.payload_width()) as nat,
        )
    }

    /// The operand laid over `len` bytes: its tag, then its payload.
    pub open spec fn spec_encode_into(self, len: nat) -> Seq<u8> {
        seq![self.spec_id()] + self.spec_encode_value((len - 1) as nat)
    }

    /// The nine bytes of the operand: its tag and eight bytes of payload.
    pub open spec fn spec_encode(self) -> Seq<u8> {
        self.spec_encode_into(9)
    }

    /// The operand that `bytes` begins with: the tag decides its kind and how
    /// many of the payload bytes make up its value. No tag but 0 to 18 is one.
    pub open spec fn spec_decode(bytes: Seq<u8>) -> Option<OpArg> {
        match bytes[0] {
            0 => Some(OpArg::Register1),
            1 => Some(OpArg::Register2),
            2 => Some(OpArg::Register3),
            3 => Some(OpArg::Register4),
            4 => Some(OpArg::Register5),
            5 => Some(OpArg::Register6),
            6 => Some(OpArg::Register7),
            7 => Some(OpArg::Register8),
            8 => Some(OpArg::Register9),
            9 => Some(OpArg::Nil),
            10 => Some(OpArg::Uint8(le_value(bytes.subrange(1, 2)) as u8)),
            11 => Some(OpArg::Uint16(le_value(bytes.subrange(1, 3)) as u16)),
            12 => Some(OpArg::Uint32(le_value(bytes.subrange(1, 5)) as u32)),
            13 => Some(OpArg::Uint64(le_value(bytes.subrange(1, 9)) as u64)),
            14 => Some(OpArg::Int8(wrap_i8(le_value(bytes.subrange(1, 2)) as int))),
            15 => Some(OpArg::Int16(wrap_i16(le_value(bytes.subrange(1, 3)) as int))),
            16 => Some(OpArg::Int32(wrap_i32(le_value(bytes.subrange(1, 5)) as int))),
            17 => Some(OpArg::Int64(wrap_i64(le_value(bytes.subrange(1, 9)) as int))),
            18 => Some(OpArg::Instruction(le_value(bytes.subrange(1, 9)) as u64)),
            _ => None,
        }
    }

    /// How many bytes an encoded operand takes.
    pub fn encoded_len() -> (len: usize)
        ensures
            len == 9,
    {
        std::mem::size_of::<u8>() + std::mem::size_of::<u64>()
    }

    /// Reads the operand that `buffer` begins with.
    pub fn decode(buffer: &[u8]) -> (arg: Option<OpArg>)
        requires
            buffer@.len() >= 9,
        ensures
            arg == Self::spec_decode(buffer@),
            arg is Some <==> buffer@[0] <= 18,
    {
        let id = buffer[0];
        proof {
            reveal_with_fuel(radix, 9);
            lemma_le_value_bound(buffer@.subrange(1, 2));
            lemma_le_value_bound(buffer@.subrange(1, 3));
            lemma_le_value_bound(buffer@.subrange(1, 5));
            lemma_le_value_bound(buffer@.subrange(1, 9));
        }
        match id {
            0 => Some(OpArg::Register1),
            1 => Some(OpArg::Register2),
            2 => Some(OpArg::Register3),
            3 => Some(OpArg::Register4),
            4 => Some(OpArg::Register5),
            5 => Some(OpArg::Register6),
            6 => Some(OpArg::Register7),
            7 => Some(OpArg::Register8),
            8 => Some(OpArg::Register9),
            9 => Some(OpArg::Nil),
            10 => Some(OpArg::Uint8(read_le(buffer, 1, 1) as u8)),
            11 => Some(OpArg::Uint16(read_le(buffer, 1, 2) as u16)),
            12 => Some(OpArg::Uint32(read_le(buffer, 1, 4) as u32)),
            13 => Some(OpArg::Uint64(read_le(buffer, 1, 8))),
            14 => {
                let image = read_le(buffer, 1, 1) as u8;
                proof {
                    lemma_cast_u8(image);
                }
                Some(OpArg::Int8(image as i8))
            },
            15 => {
                let image = read_le(buffer, 1, 2) as u16;
                proof {
                    lemma_cast_u16(image);
                }
                Some(OpArg::Int16(image as i16))
            },
            16 => {
                let image = read_le(buffer, 1, 4) as u32;
                proof {
                    lemma_cast_u32(image);
                }
                Some(OpArg::Int32(image as i32))
            },
            17 => {
                let image = read_le(buffer, 1, 8);
                proof {
                    lemma_cast_u64(image);
                }
                Some(OpArg::Int64(image as i64))
            },
            18 => Some(OpArg::Instruction(read_le(buffer, 1, 8))),
            _ => None,
        }
    }

    /// Writes the payload of the operand over `buffer`: the bytes of the
    /// immediate value, least significant first, and zeros from there to the
    /// end of the buffer.
    pub fn encode_value(&self, buffer: &mut [u8])
        requires
            old(buffer)@.len() >= self.payload_width(),
        ensures
            final(buffer)@ == self.spec_encode_value(old(buffer)@.len()),
    {
        let image: u64 = match self {
            OpArg::Uint8(value) => *value as u64,
            OpArg::Uint16(value) => *value as u64,
            OpArg::Uint32(value) => *value as u64,
            OpArg::Uint64(value) | OpArg::Instruction(value) => *value,
            OpArg::Int8(value) => {
                proof {
                    lemma_cast_i8(*value);
                }
                (*value as u8) as u64
            },
            OpArg::Int16(value) => {
                proof {
                    lemma_cast_i16(*value);
                }
                (*value as u16) as u64
            },
            OpArg::Int32(value) => {
                proof {
                    lemma_cast_i32(*value);
                }
                (*value as u32) as u64
            },
            OpArg::Int64(value) => {
                proof {
                    lemma_cast_i64(*value);
                }
                *value as u64
            },
            _ => 0,
        };
        proof {
            reveal_with_fuel(radix, 9);
            lemma_le_bytes_padded(image as nat, self.payload_width(), buffer@.len());
        }
        write_le(buffer, image);
    }

    /// Writes the operand over `buffer`: its tag, then its payload.
    pub fn encode(&self, buffer: &mut [u8])
        requires
            old(buffer)@.len() >= 1 + self.payload_width(),
        ensures
            final(buffer)@ == self.spec_encode_into(old(buffer)@.len()),
    {
        let id = self.id();
        let (tag, payload) = buffer.split_at_mut(1);
        tag[0] = id;
        self.encode_value(payload);
    }
}

impl Op {
    /// The instruction laid over `len` bytes: the tag of its code, then its
    /// operand.
    pub open spec fn spec_encode_into(self, len: nat) -> Seq<u8> {
        seq![self.code.spec_encode()] + self.arg.spec_encode_into((len - 1) as nat)
    }

    /// The ten bytes of the instruction.
    pub open spec fn spec_encode(self) -> Seq<u8> {
        self.spec_encode_into(10)
    }

    /// The instruction that `bytes` holds, if they are ten bytes that begin
    /// with the tag of a code and the tag of an operand.
    pub open spec fn spec_decode(bytes: Seq<u8>) -> Option<Op> {
        if bytes.len() != 10 {
            None
        } else {
            match (OpCode::spec_decode(bytes[0]), OpArg::spec_decode(bytes.subrange(1, 10))) {
                (Some(code), Some(arg)) => Some(Op { code, arg }),
                _ => None,
            }
        }
    }

    /// How many bytes an encoded instruction takes.
    pub fn encoded_len() -> (len: usize)
        ensures
            len == 10,
    {
        OpCode::encoded_len() + OpArg::encoded_len()
    }

    /// Reads an instruction from the ten bytes that hold it.
    pub fn decode(buffer: &[u8]) -> (op: Option<Self>)
        ensures
            op == Self::spec_decode(buffer@),
            op is Some <==> buffer@.len() == 10 && buffer@[0] <= 11 && buffer@[1] <= 18,
    {
        if buffer.len() != Self::encoded_len() {
            return None;
        }
        let code = match OpCode::decode(buffer[0]) {
            Some(code) => code,
            None => return None,
        };
        let arg = match OpArg::decode(&buffer[1..10]) {
            Some(arg) => arg,
            None => return None,
        };
        Some(Op::new(code, arg))
    }

    /// Writes the instruction over `buffer`: the tag of its code, the tag of
    /// its operand, the payload, and zeros from there to the end of the
    /// buffer.
    pub fn encode(&self, buffer: &mut [u8])
        requires
            old(buffer)@.len() >= 2 + self.arg.payload_width(),
        ensures
            final(buffer)@ == self.spec_encode_into(old(buffer)@.len()),
    {
        let id = self.code.encode();
        let (tag, argument) = buffer.split_at_mut(1);
        tag[0] = id;
        self.arg.encode(argument);
    }
}

/// Reading the tag of a code gives the code back.
pub proof fn lemma_opcode_round_trip(code: OpCode)
    ensures
        OpCode::spec_decode(code.spec_encode()) == Some(code),
{
}

/// An operand is encoded in nine bytes, and reading them gives the operand
/// back.
pub proof fn lemma_oparg_round_trip(arg: OpArg)
    ensures
        arg.spec_encode().len() == 9,
        OpArg::spec_decode(arg.spec_encode()) == Some(arg),
{
    let bytes = arg.spec_encode();
    let width = arg.payload_width();
    reveal_with_fuel(radix, 9);
    lemma_le_bytes_len(arg.payload(), width);
    lemma_le_value_of_bytes(arg.payload(), width);
    assert(bytes.subrange(1, 1 + width as int) =~= le_bytes(arg.payload(), width));
}

/// An instruction is encoded in ten bytes, and reading them gives the
/// instruction back.
pub proof fn lemma_op_round_trip(op: Op)
    ensures
        op.spec_encode().len() == 10,
        Op::spec_decode(op.spec_encode()) == Some(op),
{
    lemma_opcode_round_trip(op.code);
    lemma_oparg_round_trip(op.arg);
    assert(op.spec_encode().subrange(1, 10) =~= op.arg.spec_encode());
}

} // verus!
