//! Reduction of integers to the fixed widths of the machine.
//!
//! `wrap_u8(n)` is the `u8` congruent to `n` modulo 2^8, `wrap_i8(n)` the `i8`
//! congruent to `n` modulo 2^8, and so on for the other widths. A numeric
//! cast between machine integers is such a reduction of the value it is
//! given; the lemmas of this module say so for every pair of types the
//! machine converts between.

use vstd::arithmetic::div_mod::lemma_mod_multiples_vanish;
use vstd::prelude::*;

verus! {

/// The `u8` congruent to `n` modulo 2^8.
pub open spec fn wrap_u8(n: int) -> u8 {
    (n % 0x100) as u8
}

/// The `u16` congruent to `n` modulo 2^16.
pub open spec fn wrap_u16(n: int) -> u16 {
    (n % 0x1_0000) as u16
}

/// The `u32` congruent to `n` modulo 2^32.
pub open spec fn wrap_u32(n: int) -> u32 {
    (n % 0x1_0000_0000) as u32
}

/// The `u64` congruent to `n` modulo 2^64.
pub open spec fn wrap_u64(n: int) -> u64 {
    (n % 0x1_0000_0000_0000_0000) as u64
}

/// The `usize` congruent to `n` modulo the number of `usize` values.
pub open spec fn wrap_usize(n: int) -> usize {
    (n % (usize::MAX + 1)) as usize
}

/// The `i8` congruent to `n` modulo 2^8.
pub open spec fn wrap_i8(n: int) -> i8 {
    if n % 0x100 >= 0x80 {
        (n % 0x100 - 0x100) as i8
    } else {
        (n % 0x100) as i8
    }
}

/// The `i16` congruent to `n` modulo 2^16.
pub open spec fn wrap_i16(n: int) -> i16 {
    if n % 0x1_0000 >= 0x8000 {
        (n % 0x1_0000 - 0x1_0000) as i16
    } else {
        (n % 0x1_0000) as i16
    }
}

/// The `i32` congruent to `n` modulo 2^32.
pub open spec fn wrap_i32(n: int) -> i32 {
    if n % 0x1_0000_0000 >= 0x8000_0000 {
        (n % 0x1_0000_0000 - 0x1_0000_0000) as i32
    } else {
        (n % 0x1_0000_0000) as i32
    }
}

/// The `i64` congruent to `n` modulo 2^64.
pub open spec fn wrap_i64(n: int) -> i64 {
    if n % 0x1_0000_0000_0000_0000 >= 0x8000_0000_0000_0000 {
        (n % 0x1_0000_0000_0000_0000 - 0x1_0000_0000_0000_0000) as i64
    } else {
        (n % 0x1_0000_0000_0000_0000) as i64
    }
}

/// Whether the eight fixed-width integers given are the reductions of `n`,
/// each to its own width.
pub open spec fn reductions_of(
    n: int,
    to_u8: u8,
    to_u16: u16,
    to_u32: u32,
    to_u64: u64,
    to_i8: i8,
    to_i16: i16,
    to_i32: i32,
    to_i64: i64,
) -> bool {
    &&& to_u8 == wrap_u8(n)
    &&& to_u16 == wrap_u16(n)
    &&& to_u32 == wrap_u32(n)
    &&& to_u64 == wrap_u64(n)
    &&& to_i8 == wrap_i8(n)
    &&& to_i16 == wrap_i16(n)
    &&& to_i32 == wrap_i32(n)
    &&& to_i64 == wrap_i64(n)
}

/// The quotient of `a` by `b` rounded toward zero, for `b != 0`.
pub open spec fn trunc_div(a: int, b: int) -> int {
    if a >= 0 {
        a / b
    } else {
        -((-a) / b)
    }
}

/// A quotient rounded toward zero is no larger in magnitude than the
/// dividend, and as large only where the divisor is 1 or -1.
pub proof fn lemma_trunc_div_bound(a: int, b: int)
    ensures
        b != 0 && a >= 0 ==> -a <= trunc_div(a, b) <= a,
        b != 0 && a < 0 ==> a <= trunc_div(a, b) <= -a,
        b != 0 && a < 0 && trunc_div(a, b) == -a ==> b == -1,
        b > 0 && a >= 0 ==> trunc_div(a, b) >= 0,
{
    if b != 0 {
        let m = if a >= 0 { a } else { -a };
        assert({
            &&& -m <= m / b <= m
            &&& m > 0 && m / b == m ==> b == 1
            &&& m > 0 && m / b == -m ==> b == -1
            &&& b > 0 ==> m / b >= 0
        }) by (nonlinear_arith)
            requires
                m >= 0,
                b != 0,
        ;
    }
}

/// Wrapping arithmetic and division on `u8` are those on integers, reduced.
pub proof fn lemma_arith_u8(x: u8, y: u8)
    ensures
        x.wrapping_add(y) == wrap_u8(x + y),
        x.wrapping_sub(y) == wrap_u8(x - y),
        x.wrapping_mul(y) == wrap_u8(x * y),
        y != 0 ==> x / y == wrap_u8(trunc_div(x as int, y as int)),
{
    lemma_trunc_div_bound(x as int, y as int);
}

/// Wrapping arithmetic and division on `u16` are those on integers, reduced.
pub proof fn lemma_arith_u16(x: u16, y: u16)
    ensures
        x.wrapping_add(y) == wrap_u16(x + y),
        x.wrapping_sub(y) == wrap_u16(x - y),
        x.wrapping_mul(y) == wrap_u16(x * y),
        y != 0 ==> x / y == wrap_u16(trunc_div(x as int, y as int)),
{
    lemma_trunc_div_bound(x as int, y as int);
}

/// Wrapping arithmetic and division on `u32` are those on integers, reduced.
pub proof fn lemma_arith_u32(x: u32, y: u32)
    ensures
        x.wrapping_add(y) == wrap_u32(x + y),
        x.wrapping_sub(y) == wrap_u32(x - y),
        x.wrapping_mul(y) == wrap_u32(x * y),
        y != 0 ==> x / y == wrap_u32(trunc_div(x as int, y as int)),
{
    lemma_trunc_div_bound(x as int, y as int);
}

/// Wrapping arithmetic and division on `u64` are those on integers, reduced.
pub proof fn lemma_arith_u64(x: u64, y: u64)
    ensures
        x.wrapping_add(y) == wrap_u64(x + y),
        x.wrapping_sub(y) == wrap_u64(x - y),
        x.wrapping_mul(y) == wrap_u64(x * y),
        y != 0 ==> x / y == wrap_u64(trunc_div(x as int, y as int)),
{
    lemma_trunc_div_bound(x as int, y as int);
}

/// Wrapping arithmetic on `i8` is arithmetic on integers, reduced. A
/// quotient rounded toward zero fits, but for that of the least `i8` by -1,
/// which reduces to the least `i8`.
pub proof fn lemma_arith_i8(x: i8, y: i8)
    ensures
        x.wrapping_add(y) == wrap_i8(x + y),
        x.wrapping_sub(y) == wrap_i8(x - y),
        x.wrapping_mul(y) == wrap_i8(x * y),
        y != 0 && !(x == i8::MIN && y == -1) ==> i8::MIN <= trunc_div(
            x as int,
            y as int,
        ) <= i8::MAX,
        wrap_i8(trunc_div(i8::MIN as int, -1)) == i8::MIN,
{
    lemma_trunc_div_bound(x as int, y as int);
}

/// Wrapping arithmetic on `i16` is arithmetic on integers, reduced. A
/// quotient rounded toward zero fits, but for that of the least `i16` by -1,
/// which reduces to the least `i16`.
pub proof fn lemma_arith_i16(x: i16, y: i16)
    ensures
        x.wrapping_add(y) == wrap_i16(x + y),
        x.wrapping_sub(y) == wrap_i16(x - y),
        x.wrapping_mul(y) == wrap_i16(x * y),
        y != 0 && !(x == i16::MIN && y == -1) ==> i16::MIN <= trunc_div(
            x as int,
            y as int,
        ) <= i16::MAX,
        wrap_i16(trunc_div(i16::MIN as int, -1)) == i16::MIN,
{
    lemma_trunc_div_bound(x as int, y as int);
}

/// Wrapping arithmetic on `i32` is arithmetic on integers, reduced. A
/// quotient rounded toward zero fits, but for that of the least `i32` by -1,
/// which reduces to the least `i32`.
pub proof fn lemma_arith_i32(x: i32, y: i32)
    ensures
        x.wrapping_add(y) == wrap_i32(x + y),
        x.wrapping_sub(y) == wrap_i32(x - y),
        x.wrapping_mul(y) == wrap_i32(x * y),
        y != 0 && !(x == i32::MIN && y == -1) ==> i32::MIN <= trunc_div(
            x as int,
            y as int,
        ) <= i32::MAX,
        wrap_i32(trunc_div(i32::MIN as int, -1)) == i32::MIN,
{
    lemma_trunc_div_bound(x as int, y as int);
}

/// Wrapping arithmetic on `i64` is arithmetic on integers, reduced. A
/// quotient rounded toward zero fits, but for that of the least `i64` by -1,
/// which reduces to the least `i64`.
pub proof fn lemma_arith_i64(x: i64, y: i64)
    ensures
        x.wrapping_add(y) == wrap_i64(x + y),
        x.wrapping_sub(y) == wrap_i64(x - y),
        x.wrapping_mul(y) == wrap_i64(x * y),
        y != 0 && !(x == i64::MIN && y == -1) ==> i64::MIN <= trunc_div(
            x as int,
            y as int,
        ) <= i64::MAX,
        wrap_i64(trunc_div(i64::MIN as int, -1)) == i64::MIN,
{
    lemma_trunc_div_bound(x as int, y as int);
}

/// Wrapping arithmetic and division on `usize` are those on integers, reduced.
pub proof fn lemma_arith_usize(x: usize, y: usize)
    ensures
        x.wrapping_add(y) == wrap_usize(x + y),
        x.wrapping_sub(y) == wrap_usize(x - y),
        x.wrapping_mul(y) == wrap_usize(x * y),
        y != 0 ==> x / y == wrap_usize(trunc_div(x as int, y as int)),
{
    lemma_trunc_div_bound(x as int, y as int);
    let modulus = usize::MAX + 1;
    assert(modulus == 0x1_0000_0000 || modulus == 0x1_0000_0000_0000_0000);
    assert((x + y) % modulus == (if x + y >= modulus {
        x + y - modulus
    } else {
        x + y
    })) by {
        if modulus == 0x1_0000_0000 {
            assert((x + y) % modulus == (x + y) % 0x1_0000_0000);
        } else {
            assert((x + y) % modulus == (x + y) % 0x1_0000_0000_0000_0000);
        }
    }
    assert((x - y) % modulus == (if x - y < 0 {
        x - y + modulus
    } else {
        x - y
    })) by {
        if modulus == 0x1_0000_0000 {
            assert((x - y) % modulus == (x - y) % 0x1_0000_0000);
        } else {
            assert((x - y) % modulus == (x - y) % 0x1_0000_0000_0000_0000);
        }
    }
}

/// Casting a `u64` reduces its value to the width of the target.
pub proof fn lemma_cast_u64(v: u64)
    ensures
        reductions_of(
            v as int,
            v as u8,
            v as u16,
            v as u32,
            v as u64,
            v as i8,
            v as i16,
            v as i32,
            v as i64,
        ),
        v as usize == wrap_usize(v as int),
{
    assert(v as u8 == v % 0x100 && v as u16 == v % 0x1_0000 && v as u32 == v % 0x1_0000_0000)
        by (bit_vector);
    assert(v as i8 == (if v % 0x100 >= 0x80 {
        v % 0x100 - 0x100
    } else {
        (v % 0x100) as int
    })) by (bit_vector);
    assert(v as i16 == (if v % 0x1_0000 >= 0x8000 {
        v % 0x1_0000 - 0x1_0000
    } else {
        (v % 0x1_0000) as int
    })) by (bit_vector);
    assert(v as i32 == (if v % 0x1_0000_0000 >= 0x8000_0000 {
        v % 0x1_0000_0000 - 0x1_0000_0000
    } else {
        (v % 0x1_0000_0000) as int
    })) by (bit_vector);
    assert(v as i64 == (if v >= 0x8000_0000_0000_0000 {
        v - 0x1_0000_0000_0000_0000
    } else {
        v as int
    })) by (bit_vector);
    assert((v as usize) as u64 == v % 0x1_0000_0000 || (v as usize) as u64 == v)
        by (bit_vector);
    assert(usize::MAX == 0xffff_ffff || usize::MAX == 0xffff_ffff_ffff_ffff);
}

/// Casting a `u8` reduces its value to the width of the target.
pub proof fn lemma_cast_u8(v: u8)
    ensures
        reductions_of(
            v as int,
            v as u8,
            v as u16,
            v as u32,
            v as u64,
            v as i8,
            v as i16,
            v as i32,
            v as i64,
        ),
{
    assert({
        &&& v as u16 == (v as u64) as u16
        &&& v as u32 == (v as u64) as u32
        &&& v as i8 == (v as u64) as i8
        &&& v as i16 == (v as u64) as i16
        &&& v as i32 == (v as u64) as i32
        &&& v as i64 == (v as u64) as i64
    }) by (bit_vector);
    lemma_cast_u64(v as u64);
}

/// Casting a `u16` reduces its value to the width of the target.
pub proof fn lemma_cast_u16(v: u16)
    ensures
        reductions_of(
            v as int,
            v as u8,
            v as u16,
            v as u32,
            v as u64,
            v as i8,
            v as i16,
            v as i32,
            v as i64,
        ),
{
    assert({
        &&& v as u8 == (v as u64) as u8
        &&& v as u32 == (v as u64) as u32
        &&& v as i8 == (v as u64) as i8
        &&& v as i16 == (v as u64) as i16
        &&& v as i32 == (v as u64) as i32
        &&& v as i64 == (v as u64) as i64
    }) by (bit_vector);
    lemma_cast_u64(v as u64);
}

/// Casting a `u32` reduces its value to the width of the target.
pub proof fn lemma_cast_u32(v: u32)
    ensures
        reductions_of(
            v as int,
            v as u8,
            v as u16,
            v as u32,
            v as u64,
            v as i8,
            v as i16,
            v as i32,
            v as i64,
        ),
{
    assert({
        &&& v as u8 == (v as u64) as u8
        &&& v as u16 == (v as u64) as u16
        &&& v as i8 == (v as u64) as i8
        &&& v as i16 == (v as u64) as i16
        &&& v as i32 == (v as u64) as i32
        &&& v as i64 == (v as u64) as i64
    }) by (bit_vector);
    lemma_cast_u64(v as u64);
}

/// Adding 2^64 to an integer changes none of its reductions.
proof fn lemma_wrap_period(n: int)
    ensures
        wrap_u8(n + 0x1_0000_0000_0000_0000) == wrap_u8(n),
        wrap_u16(n + 0x1_0000_0000_0000_0000) == wrap_u16(n),
        wrap_u32(n + 0x1_0000_0000_0000_0000) == wrap_u32(n),
        wrap_u64(n + 0x1_0000_0000_0000_0000) == wrap_u64(n),
        wrap_i8(n + 0x1_0000_0000_0000_0000) == wrap_i8(n),
        wrap_i16(n + 0x1_0000_0000_0000_0000) == wrap_i16(n),
        wrap_i32(n + 0x1_0000_0000_0000_0000) == wrap_i32(n),
        wrap_i64(n + 0x1_0000_0000_0000_0000) == wrap_i64(n),
{
    lemma_mod_multiples_vanish(0x100_0000_0000_0000, n, 0x100);
    lemma_mod_multiples_vanish(0x1_0000_0000_0000, n, 0x1_0000);
    lemma_mod_multiples_vanish(0x1_0000_0000, n, 0x1_0000_0000);
    lemma_mod_multiples_vanish(1, n, 0x1_0000_0000_0000_0000);
}

/// Casting an `i8` reduces its value to the width of the target.
pub proof fn lemma_cast_i8(v: i8)
    ensures
        reductions_of(
            v as int,
            v as u8,
            v as u16,
            v as u32,
            v as u64,
            v as i8,
            v as i16,
            v as i32,
            v as i64,
        ),
{
    assert({
        &&& v as u8 == (v as u64) as u8
        &&& v as u16 == (v as u64) as u16
        &&& v as u32 == (v as u64) as u32
        &&& v as i16 == (v as u64) as i16
        &&& v as i32 == (v as u64) as i32
        &&& v as i64 == (v as u64) as i64
    }) by (bit_vector);
    assert(v as u64 == (if v < 0 {
        v + 0x1_0000_0000_0000_0000
    } else {
        v as int
    })) by (bit_vector);
    lemma_cast_u64(v as u64);
    lemma_wrap_period(v as int);
}

/// Casting an `i16` reduces its value to the width of the target.
pub proof fn lemma_cast_i16(v: i16)
    ensures
        reductions_of(
            v as int,
            v as u8,
            v as u16,
            v as u32,
            v as u64,
            v as i8,
            v as i16,
            v as i32,
            v as i64,
        ),
{
    assert({
        &&& v as u8 == (v as u64) as u8
        &&& v as u16 == (v as u64) as u16
        &&& v as u32 == (v as u64) as u32
        &&& v as i8 == (v as u64) as i8
        &&& v as i32 == (v as u64) as i32
        &&& v as i64 == (v as u64) as i64
    }) by (bit_vector);
    assert(v as u64 == (if v < 0 {
        v + 0x1_0000_0000_0000_0000
    } else {
        v as int
    })) by (bit_vector);
    lemma_cast_u64(v as u64);
    lemma_wrap_period(v as int);
}

/// Casting an `i32` reduces its value to the width of the target.
pub proof fn lemma_cast_i32(v: i32)
    ensures
        reductions_of(
            v as int,
            v as u8,
            v as u16,
            v as u32,
            v as u64,
            v as i8,
            v as i16,
            v as i32,
            v as i64,
        ),
{
    assert({
        &&& v as u8 == (v as u64) as u8
        &&& v as u16 == (v as u64) as u16
        &&& v as u32 == (v as u64) as u32
        &&& v as i8 == (v as u64) as i8
        &&& v as i16 == (v as u64) as i16
        &&& v as i64 == (v as u64) as i64
    }) by (bit_vector);
    assert(v as u64 == (if v < 0 {
        v + 0x1_0000_0000_0000_0000
    } else {
        v as int
    })) by (bit_vector);
    lemma_cast_u64(v as u64);
    lemma_wrap_period(v as int);
}

/// Casting an `i64` reduces its value to the width of the target.
pub proof fn lemma_cast_i64(v: i64)
    ensures
        reductions_of(
            v as int,
            v as u8,
            v as u16,
            v as u32,
            v as u64,
            v as i8,
            v as i16,
            v as i32,
            v as i64,
        ),
{
    assert({
        &&& v as u8 == (v as u64) as u8
        &&& v as u16 == (v as u64) as u16
        &&& v as u32 == (v as u64) as u32
        &&& v as i8 == (v as u64) as i8
        &&& v as i16 == (v as u64) as i16
        &&& v as i32 == (v as u64) as i32
    }) by (bit_vector);
    assert(v as u64 == (if v < 0 {
        v + 0x1_0000_0000_0000_0000
    } else {
        v as int
    })) by (bit_vector);
    lemma_cast_u64(v as u64);
    lemma_wrap_period(v as int);
}

/// Casting a `usize` reduces its value to the width of the target.
pub proof fn lemma_cast_usize(v: usize)
    ensures
        reductions_of(
            v as int,
            v as u8,
            v as u16,
            v as u32,
            v as u64,
            v as i8,
            v as i16,
            v as i32,
            v as i64,
        ),
{
    assert({
        &&& v as u8 == (v as u64) as u8
        &&& v as u16 == (v as u64) as u16
        &&& v as u32 == (v as u64) as u32
        &&& v as i8 == (v as u64) as i8
        &&& v as i16 == (v as u64) as i16
        &&& v as i32 == (v as u64) as i32
        &&& v as i64 == (v as u64) as i64
    }) by (bit_vector);
    lemma_cast_u64(v as u64);
}

} // verus!
