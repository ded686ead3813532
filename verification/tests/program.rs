use tinyvm::op::{Op, OpArg, OpCode};
use tinyvm::program::Program;

const FIXED: [Op; 2] = [
    Op { code: OpCode::Push, arg: OpArg::Uint8(1) },
    Op { code: OpCode::Exit, arg: OpArg::Nil },
];

fn sample_ops() -> Vec<Op> {
    vec![
        Op::new(OpCode::Push, OpArg::Uint64(0)),
        Op::new(OpCode::Pop, OpArg::Register1),
        Op::new(OpCode::Push, OpArg::Int16(-2)),
        Op::new(OpCode::Jump, OpArg::Instruction(5)),
        Op::new(OpCode::Exit, OpArg::Nil),
    ]
}

fn sample_bytes() -> Vec<u8> {
    vec![
        0, 13, 0, 0, 0, 0, 0, 0, 0, 0, //
        1, 0, 0, 0, 0, 0, 0, 0, 0, 0, //
        0, 15, 0xfe, 0xff, 0, 0, 0, 0, 0, 0, //
        11, 18, 5, 0, 0, 0, 0, 0, 0, 0, //
        7, 9, 0, 0, 0, 0, 0, 0, 0, 0,
    ]
}

#[test]
fn program_new_keeps_the_instructions_in_order() {
    let program = Program::new(sample_ops());
    assert_eq!(program.ops(), sample_ops().as_slice());
}

#[test]
fn program_static_exposes_its_instructions() {
    let program = Program::Static(&FIXED);
    assert_eq!(program.ops(), &FIXED[..]);
    assert_eq!(program.encode(), vec![0, 10, 1, 0, 0, 0, 0, 0, 0, 0, 7, 9, 0, 0, 0, 0, 0, 0, 0, 0]);
}

#[test]
fn program_encode_concatenates_the_records() {
    assert_eq!(Program::new(sample_ops()).encode(), sample_bytes());
}

#[test]
fn program_encode_of_nothing_is_empty() {
    assert_eq!(Program::new(Vec::new()).encode(), Vec::<u8>::new());
}

#[test]
fn program_decode_reads_the_records() {
    assert_eq!(Program::decode(&sample_bytes()), Some(Program::new(sample_ops())));
}

#[test]
fn program_decode_of_nothing_is_the_empty_program() {
    assert_eq!(Program::decode(&[]), Some(Program::new(Vec::new())));
}

#[test]
fn program_decode_drops_a_trailing_partial_record() {
    let mut bytes = sample_bytes();
    bytes.extend_from_slice(&[0, 13, 1, 0, 0]);
    assert_eq!(Program::decode(&bytes), Some(Program::new(sample_ops())));

    bytes.extend_from_slice(&[0, 0, 0, 0]);
    assert_eq!(Program::decode(&bytes), Some(Program::new(sample_ops())));

    assert_eq!(Program::decode(&[255, 255, 255]), Some(Program::new(Vec::new())));
}

#[test]
fn program_decode_reads_the_record_that_a_tenth_byte_completes() {
    let mut bytes = sample_bytes();
    bytes.extend_from_slice(&[0, 13, 1, 0, 0, 0, 0, 0, 0, 0]);
    let mut ops = sample_ops();
    ops.push(Op::new(OpCode::Push, OpArg::Uint64(1)));
    assert_eq!(Program::decode(&bytes), Some(Program::new(ops)));
}

#[test]
fn program_decode_fails_on_a_record_that_holds_no_instruction() {
    let mut bytes = sample_bytes();
    bytes[20] = 12;
    assert_eq!(Program::decode(&bytes), None);

    let mut bytes = sample_bytes();
    bytes[41] = 19;
    assert_eq!(Program::decode(&bytes), None);
}

#[test]
fn program_round_trip() {
    let program = Program::new(sample_ops());
    assert_eq!(Program::decode(&program.encode()), Some(program));
}
