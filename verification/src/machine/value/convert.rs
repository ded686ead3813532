//! Conversions of values to the fixed widths.

use crate::machine::value::MachineValue;
use crate::wrap::{
    lemma_cast_i16, lemma_cast_i32, lemma_cast_i64, lemma_cast_i8, lemma_cast_u16, lemma_cast_u32,
    lemma_cast_u64, lemma_cast_u8, lemma_cast_usize, reductions_of, wrap_i16, wrap_i32, wrap_i64,
    wrap_i8, wrap_u16, wrap_u32, wrap_u64, wrap_u8, wrap_usize,
};
use vstd::prelude::*;

verus! {

impl MachineValue {
    /// Whatever integer a value holds, casting it is reducing it.
    proof fn lemma_casts(self)
        ensures
            match self {
                MachineValue::Nil => true,
                MachineValue::Uint8(v) => reductions_of(
                    v as int, v as u8, v as u16, v as u32, v as u64,
                    v as i8, v as i16, v as i32, v as i64,
                ),
                MachineValue::Uint16(v) => reductions_of(
                    v as int, v as u8, v as u16, v as u32, v as u64,
                    v as i8, v as i16, v as i32, v as i64,
                ),
                MachineValue::Uint32(v) => reductions_of(
                    v as int, v as u8, v as u16, v as u32, v as u64,
                    v as i8, v as i16, v as i32, v as i64,
                ),
                MachineValue::Uint64(v) => reductions_of(
                    v as int, v as u8, v as u16, v as u32, v as u64,
                    v as i8, v as i16, v as i32, v as i64,
                ),
                MachineValue::Int8(v) => reductions_of(
                    v as int, v as u8, v as u16, v as u32, v as u64,
                    v as i8, v as i16, v as i32, v as i64,
                ),
                MachineValue::Int16(v) => reductions_of(
                    v as int, v as u8, v as u16, v as u32, v as u64,
                    v as i8, v as i16, v as i32, v as i64,
                ),
                MachineValue::Int32(v) => reductions_of(
                    v as int, v as u8, v as u16, v as u32, v as u64,
                    v as i8, v as i16, v as i32, v as i64,
                ),
                MachineValue::Int64(v) => reductions_of(
                    v as int, v as u8, v as u16, v as u32, v as u64,
                    v as i8, v as i16, v as i32, v as i64,
                ),
                MachineValue::ReturnAddress(v) => reductions_of(
                    v as int, v as u8, v as u16, v as u32, v as u64,
                    v as i8, v as i16, v as i32, v as i64,
                ),
            },
    {
        match self {
            MachineValue::Nil => {},
            MachineValue::Uint8(v) => lemma_cast_u8(v),
            MachineValue::Uint16(v) => lemma_cast_u16(v),
            MachineValue::Uint32(v) => lemma_cast_u32(v),
            MachineValue::Uint64(v) => lemma_cast_u64(v),
            MachineValue::Int8(v) => lemma_cast_i8(v),
            MachineValue::Int16(v) => lemma_cast_i16(v),
            MachineValue::Int32(v) => lemma_cast_i32(v),
            MachineValue::Int64(v) => lemma_cast_i64(v),
            MachineValue::ReturnAddress(v) => lemma_cast_usize(v),
        }
    }

    /// The value converted to a `u8`: kept where it fits, reduced to the
    /// width otherwise.
    pub fn as_u8(self) -> (converted: u8)
        ensures
            converted == wrap_u8(self.numeric()),
    {
        proof {
            self.lemma_casts();
        }
        match self {
            MachineValue::Uint32(value) => value as u8,
            MachineValue::Uint64(value) => value as u8,
            MachineValue::Int32(value) => value as u8,
            MachineValue::Int64(value) => value as u8,
            MachineValue::Nil => 0,
            MachineValue::Uint8(value) => value,
            MachineValue::Uint16(value) => value as u8,
            MachineValue::Int8(value) => value as u8,
            MachineValue::Int16(value) => value as u8,
            MachineValue::ReturnAddress(index) => index as u8,
        }
    }

    /// The value converted to a `u16`: kept where it fits, reduced to the
    /// width otherwise.
    pub fn as_u16(self) -> (converted: u16)
        ensures
            converted == wrap_u16(self.numeric()),
    {
        proof {
            self.lemma_casts();
        }
        match self {
            MachineValue::Uint32(value) => value as u16,
            MachineValue::Uint64(value) => value as u16,
            MachineValue::Int32(value) => value as u16,
            MachineValue::Int64(value) => value as u16,
            MachineValue::Nil => 0,
            MachineValue::Uint8(value) => value as u16,
            MachineValue::Uint16(value) => value,
            MachineValue::Int8(value) => value as u16,
            MachineValue::Int16(value) => value as u16,
            MachineValue::ReturnAddress(index) => index as u16,
        }
    }

    /// The value converted to a `u32`: kept where it fits, reduced to the
    /// width otherwise.
    pub fn as_u32(self) -> (converted: u32)
        ensures
            converted == wrap_u32(self.numeric()),
    {
        proof {
            self.lemma_casts();
        }
        match self {
            MachineValue::Uint32(value) => value,
            MachineValue::Uint64(value) => value as u32,
            MachineValue::Int32(value) => value as u32,
            MachineValue::Int64(value) => value as u32,
            MachineValue::Nil => 0,
            MachineValue::Uint8(value) => value as u32,
            MachineValue::Uint16(value) => value as u32,
            MachineValue::Int8(value) => value as u32,
            MachineValue::Int16(value) => value as u32,
            MachineValue::ReturnAddress(index) => index as u32,
        }
    }

    /// The value converted to a `u64`: kept where it fits, reduced to the
    /// width otherwise.
    pub fn as_u64(self) -> (converted: u64)
        ensures
            converted == wrap_u64(self.numeric()),
    {
        proof {
            self.lemma_casts();
        }
        match self {
            MachineValue::Uint32(value) => value as u64,
            MachineValue::Uint64(value) => value,
            MachineValue::Int32(value) => value as u64,
            MachineValue::Int64(value) => value as u64,
            MachineValue::Nil => 0,
            MachineValue::Uint8(value) => value as u64,
            MachineValue::Uint16(value) => value as u64,
            MachineValue::Int8(value) => value as u64,
            MachineValue::Int16(value) => value as u64,
            MachineValue::ReturnAddress(index) => index as u64,
        }
    }

    /// The value converted to an `i8`: kept where it fits, reduced to the
    /// width otherwise.
    pub fn as_i8(self) -> (converted: i8)
        ensures
            converted == wrap_i8(self.numeric()),
    {
        proof {
            self.lemma_casts();
        }
        match self {
            MachineValue::Uint32(value) => value as i8,
            MachineValue::Uint64(value) => value as i8,
            MachineValue::Int32(value) => value as i8,
            MachineValue::Int64(value) => value as i8,
            MachineValue::Nil => 0,
            MachineValue::Uint8(value) => value as i8,
            MachineValue::Uint16(value) => value as i8,
            MachineValue::Int8(value) => value,
            MachineValue::Int16(value) => value as i8,
            MachineValue::ReturnAddress(index) => index as i8,
        }
    }

    /// The value converted to an `i16`: kept where it fits, reduced to the
    /// width otherwise.
    pub fn as_i16(self) -> (converted: i16)
        ensures
            converted == wrap_i16(self.numeric()),
    {
        proof {
            self.lemma_casts();
        }
        match self {
            MachineValue::Uint32(value) => value as i16,
            MachineValue::Uint64(value) => value as i16,
            MachineValue::Int32(value) => value as i16,
            MachineValue::Int64(value) => value as i16,
            MachineValue::Nil => 0,
            MachineValue::Uint8(value) => value as i16,
            MachineValue::Uint16(value) => value as i16,
            MachineValue::Int8(value) => value as i16,
            MachineValue::Int16(value) => value,
            MachineValue::ReturnAddress(index) => index as i16,
        }
    }

    /// The value converted to an `i32`: kept where it fits, reduced to the
    /// width otherwise.
    pub fn as_i32(self) -> (converted: i32)
        ensures
            converted == wrap_i32(self.numeric()),
    {
        proof {
            self.lemma_casts();
        }
        match self {
            MachineValue::Uint32(value) => value as i32,
            MachineValue::Uint64(value) => value as i32,
            MachineValue::Int32(value) => value,
            MachineValue::Int64(value) => value as i32,
            MachineValue::Nil => 0,
            MachineValue::Uint8(value) => value as i32,
            MachineValue::Uint16(value) => value as i32,
            MachineValue::Int8(value) => value as i32,
            MachineValue::Int16(value) => value as i32,
            MachineValue::ReturnAddress(index) => index as i32,
        }
    }

    /// The value converted to an `i64`: kept where it fits, reduced to the
    /// width otherwise.
    pub fn as_i64(self) -> (converted: i64)
        ensures
            converted == wrap_i64(self.numeric()),
    {
        proof {
            self.lemma_casts();
        }
        match self {
            MachineValue::Uint32(value) => value as i64,
            MachineValue::Uint64(value) => value as i64,
            MachineValue::Int32(value) => value as i64,
            MachineValue::Int64(value) => value,
            MachineValue::Nil => 0,
            MachineValue::Uint8(value) => value as i64,
            MachineValue::Uint16(value) => value as i64,
            MachineValue::Int8(value) => value as i64,
            MachineValue::Int16(value) => value as i64,
            MachineValue::ReturnAddress(index) => index as i64,
        }
    }

    /// The value converted to a `usize` by way of its 64-bit unsigned form,
    /// as the right operand of a return address is.
    pub(crate) fn as_usize(self) -> (converted: usize)
        ensures
            converted == wrap_usize(wrap_u64(self.numeric()) as int),
    {
        let wide = self.as_u64();
        proof {
            lemma_cast_u64(wide);
        }
        wide as usize
    }
}

} // verus!
