use tinyvm::machine::value::MachineValue;
use tinyvm::machine::value::MachineValue::{
    Int16, Int32, Int64, Int8, Nil, ReturnAddress, Uint16, Uint32, Uint64, Uint8,
};
use tinyvm::machine::RegisterBank;
use tinyvm::op::OpArg;

fn one_of_each_kind() -> Vec<MachineValue> {
    vec![
        Nil,
        Uint8(200),
        Uint16(60_000),
        Uint32(4_000_000_000),
        Uint64(u64::MAX),
        Int8(-100),
        Int16(-30_000),
        Int32(-2_000_000_000),
        Int64(i64::MIN),
        ReturnAddress(12),
    ]
}

#[test]
fn default_value_is_nil() {
    assert!(matches!(MachineValue::default(), Nil));
}

#[test]
fn conversions_keep_what_fits() {
    assert_eq!(Uint8(200).as_u8(), 200);
    assert_eq!(Uint8(200).as_u16(), 200);
    assert_eq!(Uint8(200).as_u32(), 200);
    assert_eq!(Uint8(200).as_u64(), 200);
    assert_eq!(Uint8(100).as_i8(), 100);
    assert_eq!(Uint8(200).as_i16(), 200);
    assert_eq!(Uint16(60_000).as_i32(), 60_000);
    assert_eq!(Uint32(4_000_000_000).as_i64(), 4_000_000_000);
    assert_eq!(Int8(-100).as_i16(), -100);
    assert_eq!(Int8(-100).as_i32(), -100);
    assert_eq!(Int16(-30_000).as_i64(), -30_000);
    assert_eq!(Int64(-1).as_i8(), -1);
    assert_eq!(ReturnAddress(12).as_u8(), 12);
    assert_eq!(ReturnAddress(12).as_i64(), 12);
}

#[test]
fn conversions_reduce_what_does_not_fit() {
    assert_eq!(Uint16(0x1234).as_u8(), 0x34);
    assert_eq!(Uint32(0x1234_5678).as_u16(), 0x5678);
    assert_eq!(Uint64(0x0123_4567_89ab_cdef).as_u32(), 0x89ab_cdef);
    assert_eq!(Uint8(255).as_i8(), -1);
    assert_eq!(Uint16(0x8000).as_i16(), i16::MIN);
    assert_eq!(Uint32(u32::MAX).as_i32(), -1);
    assert_eq!(Uint64(u64::MAX).as_i64(), -1);
    assert_eq!(Int8(-1).as_u8(), 255);
    assert_eq!(Int8(-1).as_u16(), 0xffff);
    assert_eq!(Int8(-1).as_u32(), u32::MAX);
    assert_eq!(Int8(-1).as_u64(), u64::MAX);
    assert_eq!(Int32(-2).as_u16(), 0xfffe);
    assert_eq!(Int64(i64::MIN).as_u64(), 0x8000_0000_0000_0000);
    assert_eq!(Int64(i64::MIN).as_i32(), 0);
    assert_eq!(Int16(-30_000).as_i8(), -48);
    assert_eq!(Int32(0x0001_8000).as_i16(), i16::MIN);
    assert_eq!(ReturnAddress(0x1ff).as_u8(), 0xff);
    assert_eq!(ReturnAddress(0x80).as_i8(), -128);
}

#[test]
fn nil_converts_to_zero() {
    assert_eq!(Nil.as_u8(), 0);
    assert_eq!(Nil.as_u16(), 0);
    assert_eq!(Nil.as_u32(), 0);
    assert_eq!(Nil.as_u64(), 0);
    assert_eq!(Nil.as_i8(), 0);
    assert_eq!(Nil.as_i16(), 0);
    assert_eq!(Nil.as_i32(), 0);
    assert_eq!(Nil.as_i64(), 0);
}

#[test]
fn of_takes_immediates_as_they_are() {
    let bank = RegisterBank::new();
    assert!(matches!(MachineValue::of(OpArg::Nil, &bank), Some(Nil)));
    assert!(matches!(MachineValue::of(OpArg::Uint8(1), &bank), Some(Uint8(1))));
    assert!(matches!(MachineValue::of(OpArg::Uint16(2), &bank), Some(Uint16(2))));
    assert!(matches!(MachineValue::of(OpArg::Uint32(3), &bank), Some(Uint32(3))));
    assert!(matches!(MachineValue::of(OpArg::Uint64(4), &bank), Some(Uint64(4))));
    assert!(matches!(MachineValue::of(OpArg::Int8(-1), &bank), Some(Int8(-1))));
    assert!(matches!(MachineValue::of(OpArg::Int16(-2), &bank), Some(Int16(-2))));
    assert!(matches!(MachineValue::of(OpArg::Int32(-3), &bank), Some(Int32(-3))));
    assert!(matches!(MachineValue::of(OpArg::Int64(-4), &bank), Some(Int64(-4))));
}

#[test]
fn of_reads_registers() {
    let mut bank = RegisterBank::new();
    assert!(matches!(MachineValue::of(OpArg::Register5, &bank), Some(Nil)));
    bank.store(OpArg::Register5, Int16(-7)).unwrap();
    assert!(matches!(MachineValue::of(OpArg::Register5, &bank), Some(Int16(-7))));
    assert!(matches!(MachineValue::of(OpArg::Register4, &bank), Some(Nil)));
}

#[test]
fn of_an_instruction_index_is_no_value() {
    let bank = RegisterBank::new();
    assert!(MachineValue::of(OpArg::Instruction(3), &bank).is_none());
}

#[test]
fn same_kind_arithmetic_works_at_the_width_of_the_kind() {
    assert!(matches!(Uint8(20).add(Uint8(22)), Uint8(42)));
    assert!(matches!(Uint16(300).sub(Uint16(100)), Uint16(200)));
    assert!(matches!(Uint32(70_000).mul(Uint32(3)), Uint32(210_000)));
    assert!(matches!(Uint64(1 << 40).div(Uint64(1 << 8)), Uint64(0x1_0000_0000)));
    assert!(matches!(Int8(-20).add(Int8(-22)), Int8(-42)));
    assert!(matches!(Int16(-300).sub(Int16(100)), Int16(-400)));
    assert!(matches!(Int32(-70_000).mul(Int32(3)), Int32(-210_000)));
    assert!(matches!(Int64(-81).div(Int64(9)), Int64(-9)));
}

#[test]
fn arithmetic_wraps_around() {
    assert!(matches!(Uint8(200).add(Uint8(100)), Uint8(44)));
    assert!(matches!(Uint32(0).sub(Uint32(1)), Uint32(u32::MAX)));
    assert!(matches!(Uint16(0x100).mul(Uint16(0x100)), Uint16(0)));
    assert!(matches!(Uint64(u64::MAX).add(Uint64(2)), Uint64(1)));
    assert!(matches!(Int8(127).add(Int8(1)), Int8(-128)));
    assert!(matches!(Int16(i16::MIN).sub(Int16(1)), Int16(i16::MAX)));
    assert!(matches!(Int32(i32::MAX).mul(Int32(2)), Int32(-2)));
    assert!(matches!(Int64(i64::MIN).add(Int64(-1)), Int64(i64::MAX)));
    assert!(matches!(ReturnAddress(usize::MAX).add(ReturnAddress(1)), ReturnAddress(0)));
    assert!(matches!(ReturnAddress(0).sub(ReturnAddress(1)), ReturnAddress(usize::MAX)));
}

#[test]
fn division_rounds_toward_zero() {
    assert!(matches!(Int32(-7).div(Int32(2)), Int32(-3)));
    assert!(matches!(Int32(7).div(Int32(-2)), Int32(-3)));
    assert!(matches!(Int32(-7).div(Int32(-2)), Int32(3)));
    assert!(matches!(Int32(7).div(Int32(2)), Int32(3)));
    assert!(matches!(Uint8(7).div(Uint8(2)), Uint8(3)));
    assert!(matches!(Int8(-1).div(Int8(2)), Int8(0)));
}

#[test]
fn division_of_the_least_integer_by_minus_one_wraps() {
    assert!(matches!(Int8(i8::MIN).div(Int8(-1)), Int8(i8::MIN)));
    assert!(matches!(Int16(i16::MIN).div(Int16(-1)), Int16(i16::MIN)));
    assert!(matches!(Int32(i32::MIN).div(Int32(-1)), Int32(i32::MIN)));
    assert!(matches!(Int64(i64::MIN).div(Int64(-1)), Int64(i64::MIN)));
    assert!(matches!(Int8(i8::MIN).div(Uint8(255)), Int8(i8::MIN)));
}

#[test]
fn the_right_operand_is_converted_to_the_kind_of_the_left() {
    assert!(matches!(Uint8(1).add(Uint16(257)), Uint8(2)));
    assert!(matches!(Uint16(257).add(Uint8(1)), Uint16(258)));
    assert!(matches!(Int16(10).sub(Uint8(20)), Int16(-10)));
    assert!(matches!(Uint8(10).sub(Int16(20)), Uint8(246)));
    assert!(matches!(Uint64(5).mul(Int8(-1)), Uint64(0xffff_ffff_ffff_fffb)));
    assert!(matches!(Int8(5).mul(Uint64(u64::MAX)), Int8(-5)));
    assert!(matches!(Uint8(7).div(Uint16(2)), Uint8(3)));
    assert!(matches!(Int32(-9).div(Uint8(3)), Int32(-3)));
    assert!(matches!(Uint32(100).add(Int64(-1)), Uint32(99)));
    assert!(matches!(Int64(100).add(Uint32(u32::MAX)), Int64(4_294_967_395)));
    assert!(matches!(Uint64(1).add(ReturnAddress(9)), Uint64(10)));
    assert!(matches!(ReturnAddress(9).add(Uint8(1)), ReturnAddress(10)));
    assert!(matches!(ReturnAddress(9).sub(Int8(-1)), ReturnAddress(10)));
    assert!(matches!(ReturnAddress(9).mul(Uint16(3)), ReturnAddress(27)));
    assert!(matches!(ReturnAddress(9).div(Int32(2)), ReturnAddress(4)));
}

#[test]
fn nil_on_the_right_counts_as_zero() {
    assert!(matches!(Uint8(7).add(Nil), Uint8(7)));
    assert!(matches!(Int32(-7).sub(Nil), Int32(-7)));
    assert!(matches!(Uint64(7).mul(Nil), Uint64(0)));
}

#[test]
fn nil_on_the_left_gives_nil() {
    for rhs in one_of_each_kind() {
        assert!(matches!(Nil.add(rhs), Nil));
        assert!(matches!(Nil.sub(rhs), Nil));
        assert!(matches!(Nil.mul(rhs), Nil));
        assert!(matches!(Nil.div(rhs), Nil));
    }
    assert!(matches!(Nil.div(Uint8(0)), Nil));
    assert!(matches!(Nil.div(Nil), Nil));
}

#[test]
fn divides_by_zero_looks_at_the_converted_divisor() {
    assert!(Uint8(1).divides_by_zero(Uint8(0)));
    assert!(Uint8(1).divides_by_zero(Uint16(256)));
    assert!(!Uint16(1).divides_by_zero(Uint16(256)));
    assert!(Int32(1).divides_by_zero(Nil));
    assert!(Int64(1).divides_by_zero(Int8(0)));
    assert!(ReturnAddress(1).divides_by_zero(Uint64(0)));
    assert!(!ReturnAddress(1).divides_by_zero(Uint64(1)));
    assert!(!Nil.divides_by_zero(Uint8(0)));
    assert!(!Nil.divides_by_zero(Nil));
    assert!(!Int8(1).divides_by_zero(Int8(-1)));
}

#[test]
fn values_of_one_kind_are_equal_where_they_hold_the_same() {
    assert!(Uint8(3) == Uint8(3));
    assert!(Uint8(3) != Uint8(4));
    assert!(Int64(-3) == Int64(-3));
    assert!(Int64(-3) != Int64(3));
    assert!(ReturnAddress(3) == ReturnAddress(3));
    assert!(ReturnAddress(3) != ReturnAddress(4));
    for value in one_of_each_kind() {
        assert!(value == value);
    }
}

#[test]
fn equality_converts_the_right_operand() {
    assert!(Uint8(0) == Uint16(256));
    assert!(Uint16(256) != Uint8(0));
    assert!(Uint8(255) == Int8(-1));
    assert!(Int8(-1) == Uint8(255));
    assert!(Int16(-1) != Uint8(255));
    assert!(Uint8(255) == Int16(-1));
    assert!(Uint64(5) == Uint8(5));
    assert!(ReturnAddress(5) == Uint8(5));
    assert!(Uint8(5) == ReturnAddress(0x105));
    assert!(ReturnAddress(0x105) != Uint8(5));
}

#[test]
fn nil_equals_nil_only() {
    assert!(Nil == Nil);
    for value in one_of_each_kind() {
        if !matches!(value, Nil) {
            assert!(Nil != value);
        }
    }
    assert!(Nil != Uint8(0));
    assert!(Nil != Int64(0));
    assert!(Nil != ReturnAddress(0));
}

#[test]
fn nil_on_the_right_equals_zero() {
    assert!(Uint8(0) == Nil);
    assert!(Int32(0) == Nil);
    assert!(ReturnAddress(0) == Nil);
    assert!(Uint8(1) != Nil);
}
