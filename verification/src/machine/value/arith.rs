//! Arithmetic and comparison of values.

use crate::machine::value::MachineValue;
use crate::wrap::{
    lemma_arith_i16, lemma_arith_i32, lemma_arith_i64, lemma_arith_i8, lemma_arith_u16,
    lemma_arith_u32, lemma_arith_u64, lemma_arith_u8, lemma_arith_usize, trunc_div, wrap_i16,
    wrap_i32, wrap_i64, wrap_i8, wrap_u16, wrap_u32, wrap_u64, wrap_u8, wrap_usize,
};
use vstd::prelude::*;
use vstd::std_specs::cmp::PartialEqSpecImpl;

verus! {

impl MachineValue {
    /// The sum, as wrapping addition at the width of `self` computes it.
    proof fn lemma_add(self, rhs: MachineValue)
        ensures
            self.spec_add(rhs) == match self {
                MachineValue::Nil => MachineValue::Nil,
                MachineValue::Uint8(lhs) => MachineValue::Uint8(
                    lhs.wrapping_add(wrap_u8(rhs.numeric())),
                ),
                MachineValue::Uint16(lhs) => MachineValue::Uint16(
                    lhs.wrapping_add(wrap_u16(rhs.numeric())),
                ),
                MachineValue::Uint32(lhs) => MachineValue::Uint32(
                    lhs.wrapping_add(wrap_u32(rhs.numeric())),
                ),
                MachineValue::Uint64(lhs) => MachineValue::Uint64(
                    lhs.wrapping_add(wrap_u64(rhs.numeric())),
                ),
                MachineValue::Int8(lhs) => MachineValue::Int8(
                    lhs.wrapping_add(wrap_i8(rhs.numeric())),
                ),
                MachineValue::Int16(lhs) => MachineValue::Int16(
                    lhs.wrapping_add(wrap_i16(rhs.numeric())),
                ),
                MachineValue::Int32(lhs) => MachineValue::Int32(
                    lhs.wrapping_add(wrap_i32(rhs.numeric())),
                ),
                MachineValue::Int64(lhs) => MachineValue::Int64(
                    lhs.wrapping_add(wrap_i64(rhs.numeric())),
                ),
                MachineValue::ReturnAddress(lhs) => MachineValue::ReturnAddress(
                    lhs.wrapping_add(wrap_usize(wrap_u64(rhs.numeric()) as int)),
                ),
            },
    {
        match self {
            MachineValue::Nil => {},
            MachineValue::Uint8(lhs) => lemma_arith_u8(lhs, wrap_u8(rhs.numeric())),
            MachineValue::Uint16(lhs) => lemma_arith_u16(lhs, wrap_u16(rhs.numeric())),
            MachineValue::Uint32(lhs) => lemma_arith_u32(lhs, wrap_u32(rhs.numeric())),
            MachineValue::Uint64(lhs) => lemma_arith_u64(lhs, wrap_u64(rhs.numeric())),
            MachineValue::Int8(lhs) => lemma_arith_i8(lhs, wrap_i8(rhs.numeric())),
            MachineValue::Int16(lhs) => lemma_arith_i16(lhs, wrap_i16(rhs.numeric())),
            MachineValue::Int32(lhs) => lemma_arith_i32(lhs, wrap_i32(rhs.numeric())),
            MachineValue::Int64(lhs) => lemma_arith_i64(lhs, wrap_i64(rhs.numeric())),
            MachineValue::ReturnAddress(lhs) => lemma_arith_usize(
                lhs,
                wrap_usize(wrap_u64(rhs.numeric()) as int),
            ),
        }
    }

    /// The difference, as wrapping subtraction at the width of `self` computes it.
    proof fn lemma_sub(self, rhs: MachineValue)
        ensures
            self.spec_sub(rhs) == match self {
                MachineValue::Nil => MachineValue::Nil,
                MachineValue::Uint8(lhs) => MachineValue::Uint8(
                    lhs.wrapping_sub(wrap_u8(rhs.numeric())),
                ),
                MachineValue::Uint16(lhs) => MachineValue::Uint16(
                    lhs.wrapping_sub(wrap_u16(rhs.numeric())),
                ),
                MachineValue::Uint32(lhs) => MachineValue::Uint32(
                    lhs.wrapping_sub(wrap_u32(rhs.numeric())),
                ),
                MachineValue::Uint64(lhs) => MachineValue::Uint64(
                    lhs.wrapping_sub(wrap_u64(rhs.numeric())),
                ),
                MachineValue::Int8(lhs) => MachineValue::Int8(
                    lhs.wrapping_sub(wrap_i8(rhs.numeric())),
                ),
                MachineValue::Int16(lhs) => MachineValue::Int16(
                    lhs.wrapping_sub(wrap_i16(rhs.numeric())),
                ),
                MachineValue::Int32(lhs) => MachineValue::Int32(
                    lhs.wrapping_sub(wrap_i32(rhs.numeric())),
                ),
                MachineValue::Int64(lhs) => MachineValue::Int64(
                    lhs.wrapping_sub(wrap_i64(rhs.numeric())),
                ),
                MachineValue::ReturnAddress(lhs) => MachineValue::ReturnAddress(
                    lhs.wrapping_sub(wrap_usize(wrap_u64(rhs.numeric()) as int)),
                ),
            },
    {
        match self {
            MachineValue::Nil => {},
            MachineValue::Uint8(lhs) => lemma_arith_u8(lhs, wrap_u8(rhs.numeric())),
            MachineValue::Uint16(lhs) => lemma_arith_u16(lhs, wrap_u16(rhs.numeric())),
            MachineValue::Uint32(lhs) => lemma_arith_u32(lhs, wrap_u32(rhs.numeric())),
            MachineValue::Uint64(lhs) => lemma_arith_u64(lhs, wrap_u64(rhs.numeric())),
            MachineValue::Int8(lhs) => lemma_arith_i8(lhs, wrap_i8(rhs.numeric())),
            MachineValue::Int16(lhs) => lemma_arith_i16(lhs, wrap_i16(rhs.numeric())),
            MachineValue::Int32(lhs) => lemma_arith_i32(lhs, wrap_i32(rhs.numeric())),
            MachineValue::Int64(lhs) => lemma_arith_i64(lhs, wrap_i64(rhs.numeric())),
            MachineValue::ReturnAddress(lhs) => lemma_arith_usize(
                lhs,
                wrap_usize(wrap_u64(rhs.numeric()) as int),
            ),
        }
    }

    /// The product, as wrapping multiplication at the width of `self` computes it.
    proof fn lemma_mul(self, rhs: MachineValue)
        ensures
            self.spec_mul(rhs) == match self {
                MachineValue::Nil => MachineValue::Nil,
                MachineValue::Uint8(lhs) => MachineValue::Uint8(
                    lhs.wrapping_mul(wrap_u8(rhs.numeric())),
                ),
                MachineValue::Uint16(lhs) => MachineValue::Uint16(
                    lhs.wrapping_mul(wrap_u16(rhs.numeric())),
                ),
                MachineValue::Uint32(lhs) => MachineValue::Uint32(
                    lhs.wrapping_mul(wrap_u32(rhs.numeric())),
                ),
                MachineValue::Uint64(lhs) => MachineValue::Uint64(
                    lhs.wrapping_mul(wrap_u64(rhs.numeric())),
                ),
                MachineValue::Int8(lhs) => MachineValue::Int8(
                    lhs.wrapping_mul(wrap_i8(rhs.numeric())),
                ),
                MachineValue::Int16(lhs) => MachineValue::Int16(
                    lhs.wrapping_mul(wrap_i16(rhs.numeric())),
                ),
                MachineValue::Int32(lhs) => MachineValue::Int32(
                    lhs.wrapping_mul(wrap_i32(rhs.numeric())),
                ),
                MachineValue::Int64(lhs) => MachineValue::Int64(
                    lhs.wrapping_mul(wrap_i64(rhs.numeric())),
                ),
                MachineValue::ReturnAddress(lhs) => MachineValue::ReturnAddress(
                    lhs.wrapping_mul(wrap_usize(wrap_u64(rhs.numeric()) as int)),
                ),
            },
    {
        match self {
            MachineValue::Nil => {},
            MachineValue::Uint8(lhs) => lemma_arith_u8(lhs, wrap_u8(rhs.numeric())),
            MachineValue::Uint16(lhs) => lemma_arith_u16(lhs, wrap_u16(rhs.numeric())),
            MachineValue::Uint32(lhs) => lemma_arith_u32(lhs, wrap_u32(rhs.numeric())),
            MachineValue::Uint64(lhs) => lemma_arith_u64(lhs, wrap_u64(rhs.numeric())),
            MachineValue::Int8(lhs) => lemma_arith_i8(lhs, wrap_i8(rhs.numeric())),
            MachineValue::Int16(lhs) => lemma_arith_i16(lhs, wrap_i16(rhs.numeric())),
            MachineValue::Int32(lhs) => lemma_arith_i32(lhs, wrap_i32(rhs.numeric())),
            MachineValue::Int64(lhs) => lemma_arith_i64(lhs, wrap_i64(rhs.numeric())),
            MachineValue::ReturnAddress(lhs) => lemma_arith_usize(
                lhs,
                wrap_usize(wrap_u64(rhs.numeric()) as int),
            ),
        }
    }

    /// The quotient, as division at the width of `self` computes it.
    proof fn lemma_div(self, rhs: MachineValue)
        requires
            !self.spec_divides_by_zero(rhs),
        ensures
            self.spec_div(rhs) == match self {
                MachineValue::Nil => MachineValue::Nil,
                MachineValue::Uint8(lhs) => MachineValue::Uint8(lhs / wrap_u8(rhs.numeric())),
                MachineValue::Uint16(lhs) => MachineValue::Uint16(lhs / wrap_u16(rhs.numeric())),
                MachineValue::Uint32(lhs) => MachineValue::Uint32(lhs / wrap_u32(rhs.numeric())),
                MachineValue::Uint64(lhs) => MachineValue::Uint64(lhs / wrap_u64(rhs.numeric())),
                MachineValue::Int8(lhs) => {
                    let by = wrap_i8(rhs.numeric());
                    MachineValue::Int8(
                        if lhs == i8::MIN && by == -1 {
                            i8::MIN
                        } else {
                            trunc_div(lhs as int, by as int) as i8
                        },
                    )
                },
                MachineValue::Int16(lhs) => {
                    let by = wrap_i16(rhs.numeric());
                    MachineValue::Int16(
                        if lhs == i16::MIN && by == -1 {
                            i16::MIN
                        } else {
                            trunc_div(lhs as int, by as int) as i16
                        },
                    )
                },
                MachineValue::Int32(lhs) => {
                    let by = wrap_i32(rhs.numeric());
                    MachineValue::Int32(
                        if lhs == i32::MIN && by == -1 {
                            i32::MIN
                        } else {
                            trunc_div(lhs as int, by as int) as i32
                        },
                    )
                },
                MachineValue::Int64(lhs) => {
                    let by = wrap_i64(rhs.numeric());
                    MachineValue::Int64(
                        if lhs == i64::MIN && by == -1 {
                            i64::MIN
                        } else {
                            trunc_div(lhs as int, by as int) as i64
                        },
                    )
                },
                MachineValue::ReturnAddress(lhs) => MachineValue::ReturnAddress(
                    lhs / wrap_usize(wrap_u64(rhs.numeric()) as int),
                ),
            },
    {
        match self {
            MachineValue::Nil => {},
            MachineValue::Uint8(lhs) => lemma_arith_u8(lhs, wrap_u8(rhs.numeric())),
            MachineValue::Uint16(lhs) => lemma_arith_u16(lhs, wrap_u16(rhs.numeric())),
            MachineValue::Uint32(lhs) => lemma_arith_u32(lhs, wrap_u32(rhs.numeric())),
            MachineValue::Uint64(lhs) => lemma_arith_u64(lhs, wrap_u64(rhs.numeric())),
            MachineValue::Int8(lhs) => lemma_arith_i8(lhs, wrap_i8(rhs.numeric())),
            MachineValue::Int16(lhs) => lemma_arith_i16(lhs, wrap_i16(rhs.numeric())),
            MachineValue::Int32(lhs) => lemma_arith_i32(lhs, wrap_i32(rhs.numeric())),
            MachineValue::Int64(lhs) => lemma_arith_i64(lhs, wrap_i64(rhs.numeric())),
            MachineValue::ReturnAddress(lhs) => lemma_arith_usize(
                lhs,
                wrap_usize(wrap_u64(rhs.numeric()) as int),
            ),
        }
    }

    /// Whether `self / rhs` would divide by zero.
    pub fn divides_by_zero(self, rhs: MachineValue) -> (divides: bool)
        ensures
            divides == self.spec_divides_by_zero(rhs),
    {
        match self {
            MachineValue::Nil => false,
            MachineValue::Uint8(_) => rhs.as_u8() == 0,
            MachineValue::Uint16(_) => rhs.as_u16() == 0,
            MachineValue::Uint32(_) => rhs.as_u32() == 0,
            MachineValue::Uint64(_) => rhs.as_u64() == 0,
            MachineValue::Int8(_) => rhs.as_i8() == 0,
            MachineValue::Int16(_) => rhs.as_i16() == 0,
            MachineValue::Int32(_) => rhs.as_i32() == 0,
            MachineValue::Int64(_) => rhs.as_i64() == 0,
            MachineValue::ReturnAddress(_) => rhs.as_usize() == 0,
        }
    }

    /// The sum `self + rhs`, of the kind of `self`; a sum that does not fit wraps
    /// around.
    pub fn add(self, rhs: MachineValue) -> (sum: MachineValue)
        ensures
            sum == self.spec_add(rhs),
    {
        proof {
            self.lemma_add(rhs);
            if self.same_kind(rhs) {
                self.lemma_coerce_same_kind(rhs);
            }
        }
        match (self, rhs) {
            (MachineValue::Uint32(lhs), MachineValue::Uint32(rhs)) => MachineValue::Uint32(
                lhs.wrapping_add(rhs),
            ),
            (MachineValue::Uint64(lhs), MachineValue::Uint64(rhs)) => MachineValue::Uint64(
                lhs.wrapping_add(rhs),
            ),
            (MachineValue::Int32(lhs), MachineValue::Int32(rhs)) => MachineValue::Int32(
                lhs.wrapping_add(rhs),
            ),
            (MachineValue::Int64(lhs), MachineValue::Int64(rhs)) => MachineValue::Int64(
                lhs.wrapping_add(rhs),
            ),
            (MachineValue::Uint8(lhs), MachineValue::Uint8(rhs)) => MachineValue::Uint8(
                lhs.wrapping_add(rhs),
            ),
            (MachineValue::Uint16(lhs), MachineValue::Uint16(rhs)) => MachineValue::Uint16(
                lhs.wrapping_add(rhs),
            ),
            (MachineValue::Int8(lhs), MachineValue::Int8(rhs)) => MachineValue::Int8(
                lhs.wrapping_add(rhs),
            ),
            (MachineValue::Int16(lhs), MachineValue::Int16(rhs)) => MachineValue::Int16(
                lhs.wrapping_add(rhs),
            ),
            _ => match self {
                MachineValue::Uint32(lhs) => MachineValue::Uint32(lhs.wrapping_add(rhs.as_u32())),
                MachineValue::Uint64(lhs) => MachineValue::Uint64(lhs.wrapping_add(rhs.as_u64())),
                MachineValue::Int32(lhs) => MachineValue::Int32(lhs.wrapping_add(rhs.as_i32())),
                MachineValue::Int64(lhs) => MachineValue::Int64(lhs.wrapping_add(rhs.as_i64())),
                MachineValue::Nil => MachineValue::Nil,
                MachineValue::Uint8(lhs) => MachineValue::Uint8(lhs.wrapping_add(rhs.as_u8())),
                MachineValue::Uint16(lhs) => MachineValue::Uint16(lhs.wrapping_add(rhs.as_u16())),
                MachineValue::Int8(lhs) => MachineValue::Int8(lhs.wrapping_add(rhs.as_i8())),
                MachineValue::Int16(lhs) => MachineValue::Int16(lhs.wrapping_add(rhs.as_i16())),
                MachineValue::ReturnAddress(lhs) => MachineValue::ReturnAddress(
                    lhs.wrapping_add(rhs.as_usize()),
                ),
            },
        }
    }

    /// The difference `self - rhs`, of the kind of `self`; a difference that does
    /// not fit wraps around.
    pub fn sub(self, rhs: MachineValue) -> (difference: MachineValue)
        ensures
            difference == self.spec_sub(rhs),
    {
        proof {
            self.lemma_sub(rhs);
            if self.same_kind(rhs) {
                self.lemma_coerce_same_kind(rhs);
            }
        }
        match (self, rhs) {
            (MachineValue::Uint32(lhs), MachineValue::Uint32(rhs)) => MachineValue::Uint32(
                lhs.wrapping_sub(rhs),
            ),
            (MachineValue::Uint64(lhs), MachineValue::Uint64(rhs)) => MachineValue::Uint64(
                lhs.wrapping_sub(rhs),
            ),
            (MachineValue::Int32(lhs), MachineValue::Int32(rhs)) => MachineValue::Int32(
                lhs.wrapping_sub(rhs),
            ),
            (MachineValue::Int64(lhs), MachineValue::Int64(rhs)) => MachineValue::Int64(
                lhs.wrapping_sub(rhs),
            ),
            (MachineValue::Uint8(lhs), MachineValue::Uint8(rhs)) => MachineValue::Uint8(
                lhs.wrapping_sub(rhs),
            ),
            (MachineValue::Uint16(lhs), MachineValue::Uint16(rhs)) => MachineValue::Uint16(
                lhs.wrapping_sub(rhs),
            ),
            (MachineValue::Int8(lhs), MachineValue::Int8(rhs)) => MachineValue::Int8(
                lhs.wrapping_sub(rhs),
            ),
            (MachineValue::Int16(lhs), MachineValue::Int16(rhs)) => MachineValue::Int16(
                lhs.wrapping_sub(rhs),
            ),
            _ => match self {
                MachineValue::Uint32(lhs) => MachineValue::Uint32(lhs.wrapping_sub(rhs.as_u32())),
                MachineValue::Uint64(lhs) => MachineValue::Uint64(lhs.wrapping_sub(rhs.as_u64())),
                MachineValue::Int32(lhs) => MachineValue::Int32(lhs.wrapping_sub(rhs.as_i32())),
                MachineValue::Int64(lhs) => MachineValue::Int64(lhs.wrapping_sub(rhs.as_i64())),
                MachineValue::Nil => MachineValue::Nil,
                MachineValue::Uint8(lhs) => MachineValue::Uint8(lhs.wrapping_sub(rhs.as_u8())),
                MachineValue::Uint16(lhs) => MachineValue::Uint16(lhs.wrapping_sub(rhs.as_u16())),
                MachineValue::Int8(lhs) => MachineValue::Int8(lhs.wrapping_sub(rhs.as_i8())),
                MachineValue::Int16(lhs) => MachineValue::Int16(lhs.wrapping_sub(rhs.as_i16())),
                MachineValue::ReturnAddress(lhs) => MachineValue::ReturnAddress(
                    lhs.wrapping_sub(rhs.as_usize()),
                ),
            },
        }
    }

    /// The product `self * rhs`, of the kind of `self`; a product that does not
    /// fit wraps around.
    pub fn mul(self, rhs: MachineValue) -> (product: MachineValue)
        ensures
            product == self.spec_mul(rhs),
    {
        proof {
            self.lemma_mul(rhs);
            if self.same_kind(rhs) {
                self.lemma_coerce_same_kind(rhs);
            }
        }
        match (self, rhs) {
            (MachineValue::Uint32(lhs), MachineValue::Uint32(rhs)) => MachineValue::Uint32(
                lhs.wrapping_mul(rhs),
            ),
            (MachineValue::Uint64(lhs), MachineValue::Uint64(rhs)) => MachineValue::Uint64(
                lhs.wrapping_mul(rhs),
            ),
            (MachineValue::Int32(lhs), MachineValue::Int32(rhs)) => MachineValue::Int32(
                lhs.wrapping_mul(rhs),
            ),
            (MachineValue::Int64(lhs), MachineValue::Int64(rhs)) => MachineValue::Int64(
                lhs.wrapping_mul(rhs),
            ),
            (MachineValue::Uint8(lhs), MachineValue::Uint8(rhs)) => MachineValue::Uint8(
                lhs.wrapping_mul(rhs),
            ),
            (MachineValue::Uint16(lhs), MachineValue::Uint16(rhs)) => MachineValue::Uint16(
                lhs.wrapping_mul(rhs),
            ),
            (MachineValue::Int8(lhs), MachineValue::Int8(rhs)) => MachineValue::Int8(
                lhs.wrapping_mul(rhs),
            ),
            (MachineValue::Int16(lhs), MachineValue::Int16(rhs)) => MachineValue::Int16(
                lhs.wrapping_mul(rhs),
            ),
            _ => match self {
                MachineValue::Uint32(lhs) => MachineValue::Uint32(lhs.wrapping_mul(rhs.as_u32())),
                MachineValue::Uint64(lhs) => MachineValue::Uint64(lhs.wrapping_mul(rhs.as_u64())),
                MachineValue::Int32(lhs) => MachineValue::Int32(lhs.wrapping_mul(rhs.as_i32())),
                MachineValue::Int64(lhs) => MachineValue::Int64(lhs.wrapping_mul(rhs.as_i64())),
                MachineValue::Nil => MachineValue::Nil,
                MachineValue::Uint8(lhs) => MachineValue::Uint8(lhs.wrapping_mul(rhs.as_u8())),
                MachineValue::Uint16(lhs) => MachineValue::Uint16(lhs.wrapping_mul(rhs.as_u16())),
                MachineValue::Int8(lhs) => MachineValue::Int8(lhs.wrapping_mul(rhs.as_i8())),
                MachineValue::Int16(lhs) => MachineValue::Int16(lhs.wrapping_mul(rhs.as_i16())),
                MachineValue::ReturnAddress(lhs) => MachineValue::ReturnAddress(
                    lhs.wrapping_mul(rhs.as_usize()),
                ),
            },
        }
    }

    /// The quotient `self / rhs`, of the kind of `self`, rounded toward zero. The
    /// one quotient that does not fit, that of the least integer of a signed
    /// kind by -1, wraps around to that integer. There is no quotient by zero:
    /// `divides_by_zero` tells when `rhs` counts as zero.
    pub fn div(self, rhs: MachineValue) -> (quotient: MachineValue)
        requires
            !self.spec_divides_by_zero(rhs),
        ensures
            quotient == self.spec_div(rhs),
    {
        proof {
            self.lemma_div(rhs);
            if self.same_kind(rhs) {
                self.lemma_coerce_same_kind(rhs);
            }
        }
        match (self, rhs) {
            (MachineValue::Uint32(lhs), MachineValue::Uint32(rhs)) => MachineValue::Uint32(
                lhs / rhs,
            ),
            (MachineValue::Uint64(lhs), MachineValue::Uint64(rhs)) => MachineValue::Uint64(
                lhs / rhs,
            ),
            (MachineValue::Int32(lhs), MachineValue::Int32(rhs)) => MachineValue::Int32(
                if lhs == i32::MIN && rhs == -1 {
                    i32::MIN
                } else {
                    lhs / rhs
                },
            ),
            (MachineValue::Int64(lhs), MachineValue::Int64(rhs)) => MachineValue::Int64(
                if lhs == i64::MIN && rhs == -1 {
                    i64::MIN
                } else {
                    lhs / rhs
                },
            ),
            (MachineValue::Uint8(lhs), MachineValue::Uint8(rhs)) => MachineValue::Uint8(
                lhs / rhs,
            ),
            (MachineValue::Uint16(lhs), MachineValue::Uint16(rhs)) => MachineValue::Uint16(
                lhs / rhs,
            ),
            (MachineValue::Int8(lhs), MachineValue::Int8(rhs)) => MachineValue::Int8(
                if lhs == i8::MIN && rhs == -1 {
                    i8::MIN
                } else {
                    lhs / rhs
                },
            ),
            (MachineValue::Int16(lhs), MachineValue::Int16(rhs)) => MachineValue::Int16(
                if lhs == i16::MIN && rhs == -1 {
                    i16::MIN
                } else {
                    lhs / rhs
                },
            ),
            _ => match self {
                MachineValue::Uint32(lhs) => MachineValue::Uint32(lhs / rhs.as_u32()),
                MachineValue::Uint64(lhs) => MachineValue::Uint64(lhs / rhs.as_u64()),
                MachineValue::Int32(lhs) => {
                    let by = rhs.as_i32();
                    MachineValue::Int32(
                        if lhs == i32::MIN && by == -1 {
                            i32::MIN
                        } else {
                            lhs / by
                        },
                    )
                },
                MachineValue::Int64(lhs) => {
                    let by = rhs.as_i64();
                    MachineValue::Int64(
                        if lhs == i64::MIN && by == -1 {
                            i64::MIN
                        } else {
                            lhs / by
                        },
                    )
                },
                MachineValue::Nil => MachineValue::Nil,
                MachineValue::Uint8(lhs) => MachineValue::Uint8(lhs / rhs.as_u8()),
                MachineValue::Uint16(lhs) => MachineValue::Uint16(lhs / rhs.as_u16()),
                MachineValue::Int8(lhs) => {
                    let by = rhs.as_i8();
                    MachineValue::Int8(
                        if lhs == i8::MIN && by == -1 {
                            i8::MIN
                        } else {
                            lhs / by
                        },
                    )
                },
                MachineValue::Int16(lhs) => {
                    let by = rhs.as_i16();
                    MachineValue::Int16(
                        if lhs == i16::MIN && by == -1 {
                            i16::MIN
                        } else {
                            lhs / by
                        },
                    )
                },
                MachineValue::ReturnAddress(lhs) => MachineValue::ReturnAddress(
                    lhs / rhs.as_usize(),
                ),
            },
        }
    }
}

impl PartialEq for MachineValue {
    /// Whether `self` holds the integer that `other`, converted to the kind of
    /// `self`, holds.
    fn eq(&self, other: &Self) -> (equal: bool) {
        proof {
            if self.same_kind(*other) {
                self.lemma_coerce_same_kind(*other);
            }
        }
        match (self, other) {
            (MachineValue::Uint32(lhs), MachineValue::Uint32(rhs)) => *lhs == *rhs,
            (MachineValue::Uint64(lhs), MachineValue::Uint64(rhs)) => *lhs == *rhs,
            (MachineValue::Int32(lhs), MachineValue::Int32(rhs)) => *lhs == *rhs,
            (MachineValue::Int64(lhs), MachineValue::Int64(rhs)) => *lhs == *rhs,
            (MachineValue::Uint8(lhs), MachineValue::Uint8(rhs)) => *lhs == *rhs,
            (MachineValue::Uint16(lhs), MachineValue::Uint16(rhs)) => *lhs == *rhs,
            (MachineValue::Int8(lhs), MachineValue::Int8(rhs)) => *lhs == *rhs,
            (MachineValue::Int16(lhs), MachineValue::Int16(rhs)) => *lhs == *rhs,
            (MachineValue::ReturnAddress(lhs), MachineValue::ReturnAddress(rhs)) => *lhs == *rhs,
            _ => match self {
                MachineValue::Uint32(value) => *value == other.as_u32(),
                MachineValue::Uint64(value) => *value == other.as_u64(),
                MachineValue::Int32(value) => *value == other.as_i32(),
                MachineValue::Int64(value) => *value == other.as_i64(),
                MachineValue::Nil => matches!(other, MachineValue::Nil),
                MachineValue::Uint8(value) => *value == other.as_u8(),
                MachineValue::Uint16(value) => *value == other.as_u16(),
                MachineValue::Int8(value) => *value == other.as_i8(),
                MachineValue::Int16(value) => *value == other.as_i16(),
                MachineValue::ReturnAddress(index) => *index == other.as_usize(),
            },
        }
    }
}

impl PartialEqSpecImpl for MachineValue {
    open spec fn obeys_eq_spec() -> bool {
        true
    }

    open spec fn eq_spec(&self, other: &Self) -> bool {
        self.equals(*other)
    }
}

impl Eq for MachineValue {}

} // verus!
