//! The values that the machine computes with.
//!
//! A value is an integer of one of eight fixed widths, a return address, or
//! nothing. Arithmetic and comparison take their width from the left
//! operand: the right operand is first converted to the kind of the left
//! one, and the result is of that kind. Sums, differences, products and
//! quotients that do not fit the width wrap around.
//!
//! This file holds the values and what the operations mean; `convert` holds
//! the conversions, `arith` the arithmetic and the comparison.

use crate::machine::RegisterBank;
use crate::op::OpArg;
use crate::wrap::{
    trunc_div, wrap_i16, wrap_i32, wrap_i64, wrap_i8, wrap_u16, wrap_u32, wrap_u64, wrap_u8,
    wrap_usize,
};
use vstd::prelude::*;

pub mod arith;
pub mod convert;

verus! {

/// A value on a stack or in a register.
#[derive(Clone, Copy, Debug)]
pub enum MachineValue {
    /// No value.
    Nil,
    Uint8(u8),
    Uint16(u16),
    Uint32(u32),
    Uint64(u64),
    Int8(i8),
    Int16(i16),
    Int32(i32),
    Int64(i64),
    /// The index of the instruction to come back to after a call.
    ReturnAddress(usize),
}

impl Default for MachineValue {
    fn default() -> (value: Self)
        ensures
            value == MachineValue::Nil,
    {
        MachineValue::Nil
    }
}

impl MachineValue {
    /// The integer that the value holds; nothing counts as zero.
    pub open spec fn numeric(self) -> int {
        match self {
            MachineValue::Nil => 0,
            MachineValue::Uint8(value) => value as int,
            MachineValue::Uint16(value) => value as int,
            MachineValue::Uint32(value) => value as int,
            MachineValue::Uint64(value) => value as int,
            MachineValue::Int8(value) => value as int,
            MachineValue::Int16(value) => value as int,
            MachineValue::Int32(value) => value as int,
            MachineValue::Int64(value) => value as int,
            MachineValue::ReturnAddress(index) => index as int,
        }
    }

    /// Whether two values are of the same kind.
    pub open spec fn same_kind(self, other: MachineValue) -> bool {
        match (self, other) {
            (MachineValue::Nil, MachineValue::Nil) => true,
            (MachineValue::Uint8(_), MachineValue::Uint8(_)) => true,
            (MachineValue::Uint16(_), MachineValue::Uint16(_)) => true,
            (MachineValue::Uint32(_), MachineValue::Uint32(_)) => true,
            (MachineValue::Uint64(_), MachineValue::Uint64(_)) => true,
            (MachineValue::Int8(_), MachineValue::Int8(_)) => true,
            (MachineValue::Int16(_), MachineValue::Int16(_)) => true,
            (MachineValue::Int32(_), MachineValue::Int32(_)) => true,
            (MachineValue::Int64(_), MachineValue::Int64(_)) => true,
            (MachineValue::ReturnAddress(_), MachineValue::ReturnAddress(_)) => true,
            _ => false,
        }
    }

    /// The value of the kind of `self` that holds `n`, reduced to the width of
    /// that kind.
    pub open spec fn with_numeric(self, n: int) -> MachineValue {
        match self {
            MachineValue::Nil => MachineValue::Nil,
            MachineValue::Uint8(_) => MachineValue::Uint8(wrap_u8(n)),
            MachineValue::Uint16(_) => MachineValue::Uint16(wrap_u16(n)),
            MachineValue::Uint32(_) => MachineValue::Uint32(wrap_u32(n)),
            MachineValue::Uint64(_) => MachineValue::Uint64(wrap_u64(n)),
            MachineValue::Int8(_) => MachineValue::Int8(wrap_i8(n)),
            MachineValue::Int16(_) => MachineValue::Int16(wrap_i16(n)),
            MachineValue::Int32(_) => MachineValue::Int32(wrap_i32(n)),
            MachineValue::Int64(_) => MachineValue::Int64(wrap_i64(n)),
            MachineValue::ReturnAddress(_) => MachineValue::ReturnAddress(wrap_usize(n)),
        }
    }

    /// `other` converted to the kind of `self`: the integer that stands on
    /// the right of `self` in arithmetic and comparison. A return address
    /// takes the other value by way of its 64-bit unsigned form.
    pub open spec fn coerce(self, other: MachineValue) -> int {
        match self {
            MachineValue::Nil => 0,
            MachineValue::Uint8(_) => wrap_u8(other.numeric()) as int,
            MachineValue::Uint16(_) => wrap_u16(other.numeric()) as int,
            MachineValue::Uint32(_) => wrap_u32(other.numeric()) as int,
            MachineValue::Uint64(_) => wrap_u64(other.numeric()) as int,
            MachineValue::Int8(_) => wrap_i8(other.numeric()) as int,
            MachineValue::Int16(_) => wrap_i16(other.numeric()) as int,
            MachineValue::Int32(_) => wrap_i32(other.numeric()) as int,
            MachineValue::Int64(_) => wrap_i64(other.numeric()) as int,
            MachineValue::ReturnAddress(_) => wrap_usize(wrap_u64(other.numeric()) as int) as int,
        }
    }

    /// `self + rhs`: the sum of `self` and of `rhs` converted to the kind of
    /// `self`, reduced to the width of that kind. Nothing plus anything is
    /// nothing.
    pub open spec fn spec_add(self, rhs: MachineValue) -> MachineValue {
        self.with_numeric(self.numeric() + self.coerce(rhs))
    }

    /// `self - rhs`: the difference of `self` and of `rhs` converted to the
    /// kind of `self`, reduced to the width of that kind.
    pub open spec fn spec_sub(self, rhs: MachineValue) -> MachineValue {
        self.with_numeric(self.numeric() - self.coerce(rhs))
    }

    /// `self * rhs`: the product of `self` and of `rhs` converted to the kind
    /// of `self`, reduced to the width of that kind.
    pub open spec fn spec_mul(self, rhs: MachineValue) -> MachineValue {
        self.with_numeric(self.numeric() * self.coerce(rhs))
    }

    /// `self / rhs`: the quotient, rounded toward zero, of `self` by `rhs`
    /// converted to the kind of `self`, reduced to the width of that kind.
    /// It says nothing where `self.spec_divides_by_zero(rhs)`.
    pub open spec fn spec_div(self, rhs: MachineValue) -> MachineValue {
        self.with_numeric(trunc_div(self.numeric(), self.coerce(rhs)))
    }

    /// Whether `self / rhs` would divide by zero: `self` holds an integer, and
    /// `rhs` converted to the kind of `self` is zero.
    pub open spec fn spec_divides_by_zero(self, rhs: MachineValue) -> bool {
        !(self is Nil) && self.coerce(rhs) == 0
    }

    /// Whether `self == rhs`: `self` holds the integer that `rhs` converted to
    /// the kind of `self` holds. Nothing equals nothing, and nothing else.
    pub open spec fn equals(self, rhs: MachineValue) -> bool {
        match self {
            MachineValue::Nil => rhs is Nil,
            _ => self.numeric() == self.coerce(rhs),
        }
    }

    /// Whether an integer is within the range of the kind of `self`. Nothing
    /// holds no integer but zero.
    pub open spec fn fits(self, n: int) -> bool {
        match self {
            MachineValue::Nil => n == 0,
            MachineValue::Uint8(_) => u8::MIN <= n <= u8::MAX,
            MachineValue::Uint16(_) => u16::MIN <= n <= u16::MAX,
            MachineValue::Uint32(_) => u32::MIN <= n <= u32::MAX,
            MachineValue::Uint64(_) => u64::MIN <= n <= u64::MAX,
            MachineValue::Int8(_) => i8::MIN <= n <= i8::MAX,
            MachineValue::Int16(_) => i16::MIN <= n <= i16::MAX,
            MachineValue::Int32(_) => i32::MIN <= n <= i32::MAX,
            MachineValue::Int64(_) => i64::MIN <= n <= i64::MAX,
            MachineValue::ReturnAddress(_) => usize::MIN <= n <= usize::MAX,
        }
    }

    /// The value that an operand stands for: the content of the register it
    /// names, the immediate value it carries, or nothing. An instruction
    /// index stands for no value.
    pub open spec fn spec_of(arg: OpArg, registers: Seq<MachineValue>) -> Option<MachineValue> {
        match arg {
            OpArg::Nil => Some(MachineValue::Nil),
            OpArg::Uint8(value) => Some(MachineValue::Uint8(value)),
            OpArg::Uint16(value) => Some(MachineValue::Uint16(value)),
            OpArg::Uint32(value) => Some(MachineValue::Uint32(value)),
            OpArg::Uint64(value) => Some(MachineValue::Uint64(value)),
            OpArg::Int8(value) => Some(MachineValue::Int8(value)),
            OpArg::Int16(value) => Some(MachineValue::Int16(value)),
            OpArg::Int32(value) => Some(MachineValue::Int32(value)),
            OpArg::Int64(value) => Some(MachineValue::Int64(value)),
            OpArg::Instruction(_) => None,
            _ => Some(registers[arg.spec_id() as int]),
        }
    }

    /// The value that the operand `arg` stands for, with the registers of
    /// `bank`.
    pub fn of(arg: OpArg, bank: &RegisterBank) -> (value: Option<Self>)
        ensures
            value == Self::spec_of(arg, bank@),
            value is None <==> arg is Instruction,
    {
        match arg {
            OpArg::Register1
            | OpArg::Register2
            | OpArg::Register3
            | OpArg::Register4
            | OpArg::Register5
            | OpArg::Register6
            | OpArg::Register7
            | OpArg::Register8
            | OpArg::Register9 => bank.load(arg),
            OpArg::Uint32(value) => Some(MachineValue::Uint32(value)),
            OpArg::Uint64(value) => Some(MachineValue::Uint64(value)),
            OpArg::Int32(value) => Some(MachineValue::Int32(value)),
            OpArg::Int64(value) => Some(MachineValue::Int64(value)),
            OpArg::Nil => Some(MachineValue::Nil),
            OpArg::Uint8(value) => Some(MachineValue::Uint8(value)),
            OpArg::Uint16(value) => Some(MachineValue::Uint16(value)),
            OpArg::Int8(value) => Some(MachineValue::Int8(value)),
            OpArg::Int16(value) => Some(MachineValue::Int16(value)),
            OpArg::Instruction(_) => None,
        }
    }

    /// A value converted to its own kind is itself.
    pub proof fn lemma_coerce_same_kind(self, rhs: MachineValue)
        requires
            self.same_kind(rhs),
        ensures
            self.coerce(rhs) == rhs.numeric(),
            self.with_numeric(rhs.numeric()) == rhs,
    {
        if rhs is ReturnAddress {
            assert(usize::MAX == 0xffff_ffff || usize::MAX == 0xffff_ffff_ffff_ffff);
        }
    }

    /// Between two values of one kind nothing is converted: arithmetic takes
    /// the two integers as they are, and the values are equal where they
    /// are the same.
    pub proof fn lemma_same_kind_is_native(self, rhs: MachineValue)
        requires
            self.same_kind(rhs),
        ensures
            self.spec_add(rhs) == self.with_numeric(self.numeric() + rhs.numeric()),
            self.spec_sub(rhs) == self.with_numeric(self.numeric() - rhs.numeric()),
            self.spec_mul(rhs) == self.with_numeric(self.numeric() * rhs.numeric()),
            self.spec_div(rhs) == self.with_numeric(trunc_div(self.numeric(), rhs.numeric())),
            self.equals(rhs) <==> self == rhs,
    {
        self.lemma_coerce_same_kind(rhs);
    }

    /// Whatever the kind of the right operand, the result of arithmetic is of
    /// the kind of the left one.
    pub proof fn lemma_left_operand_decides(self, rhs: MachineValue)
        ensures
            self.spec_add(rhs).same_kind(self),
            self.spec_sub(rhs).same_kind(self),
            self.spec_mul(rhs).same_kind(self),
            self.spec_div(rhs).same_kind(self),
    {
    }

    /// What a value of the kind of `self` is made to hold is within the range
    /// of the kind, and is the integer given where that is within the range.
    /// What the right operand is converted to is within the range as well.
    pub proof fn lemma_reduced_to_kind(self, rhs: MachineValue, n: int)
        ensures
            self.with_numeric(n).same_kind(self),
            self.fits(self.with_numeric(n).numeric()),
            self.fits(n) ==> self.with_numeric(n).numeric() == n,
            self.fits(self.coerce(rhs)),
    {
        if self is ReturnAddress {
            assert(usize::MAX == 0xffff_ffff || usize::MAX == 0xffff_ffff_ffff_ffff);
        }
    }

    /// Nothing, on the left of an arithmetic operator, gives nothing.
    pub proof fn lemma_nil_absorbs(rhs: MachineValue)
        ensures
            MachineValue::Nil.spec_add(rhs) == MachineValue::Nil,
            MachineValue::Nil.spec_sub(rhs) == MachineValue::Nil,
            MachineValue::Nil.spec_mul(rhs) == MachineValue::Nil,
            MachineValue::Nil.spec_div(rhs) == MachineValue::Nil,
    {
    }

    /// Nothing equals nothing, and no other value. On the right, nothing
    /// counts as zero.
    pub proof fn lemma_nil_equals(other: MachineValue)
        ensures
            MachineValue::Nil.equals(other) <==> other is Nil,
            other.equals(MachineValue::Nil) <==> other is Nil || other.numeric() == 0,
    {
        if other is ReturnAddress {
            assert(usize::MAX == 0xffff_ffff || usize::MAX == 0xffff_ffff_ffff_ffff);
        }
    }
}

} // verus!
