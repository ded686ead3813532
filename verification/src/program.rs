//! Programs: sequences of instructions, and their binary form.
//!
//! The binary form of a program is the records of its instructions, ten
//! bytes each, one after the other.

use crate::op::bytes::lemma_le_bytes_len;
use crate::op::codec::lemma_op_round_trip;
use crate::op::Op;
use vstd::prelude::*;

verus! {

/// A sequence of instructions, either built at run time or fixed in the
/// binary. Its view is the sequence of its instructions.
#[derive(Debug, PartialEq, Eq, Hash)]
pub enum Program {
    Owned(Vec<Op>),
    Static(&'static [Op]),
}

impl View for Program {
    type V = Seq<Op>;

    open spec fn view(&self) -> Seq<Op> {
        match self {
            Program::Owned(ops) => ops@,
            Program::Static(ops) => ops@,
        }
    }
}

impl Clone for Program {
    /// A program with the same instructions.
    fn clone(&self) -> (copy: Self)
        ensures
            copy@ == self@,
    {
        match self {
            Program::Owned(ops) => {
                let copy = ops.clone();
                assert(copy@ =~= ops@);
                Program::Owned(copy)
            },
            Program::Static(ops) => Program::Static(ops),
        }
    }
}

impl Program {
    /// The `index`-th record of ten bytes in `bytes`.
    pub open spec fn record(bytes: Seq<u8>, index: int) -> Seq<u8> {
        bytes.subrange(10 * index, 10 * index + 10)
    }

    /// The binary form of the instructions `ops`: byte `i` is byte `i % 10` of
    /// the record of instruction `i / 10`.
    pub open spec fn spec_encode(ops: Seq<Op>) -> Seq<u8> {
        Seq::new(10 * ops.len(), |i: int| ops[i / 10].spec_encode()[i % 10])
    }

    /// Whether each whole record of ten bytes in `bytes` holds an instruction.
    pub open spec fn decodable(bytes: Seq<u8>) -> bool {
        forall|index: int|
            0 <= index < bytes.len() / 10 ==> (#[trigger] Op::spec_decode(
                Self::record(bytes, index),
            )) is Some
    }

    /// The instructions that `bytes` hold: one for each whole record of ten
    /// bytes, where each of them holds an instruction. Bytes after the last
    /// whole record count for nothing.
    pub open spec fn spec_decode(bytes: Seq<u8>) -> Option<Seq<Op>> {
        if Self::decodable(bytes) {
            Some(
                Seq::new(
                    bytes.len() / 10,
                    |index: int| Op::spec_decode(Self::record(bytes, index)).unwrap(),
                ),
            )
        } else {
            None
        }
    }

    /// The program made of the instructions `ops`.
    pub fn new(ops: Vec<Op>) -> (program: Self)
        ensures
            program@ == ops@,
    {
        Self::Owned(ops)
    }

    /// The instructions of the program, in order.
    pub fn ops(&self) -> (ops: &[Op])
        ensures
            ops@ == self@,
    {
        match self {
            Self::Owned(ops) => ops.as_slice(),
            Self::Static(ops) => ops,
        }
    }

    /// Reads a program from its binary form. Each whole record of ten bytes
    /// must hold an instruction; what follows the last whole record is left
    /// aside.
    pub fn decode(buffer: &[u8]) -> (program: Option<Self>)
        ensures
            program is Some <==> Self::decodable(buffer@),
            program matches Some(decoded) ==> Some(decoded@) == Self::spec_decode(buffer@),
    {
        let count: usize = buffer.len() / Op::encoded_len();
        let mut ops: Vec<Op> = Vec::new();
        let mut index: usize = 0;
        while index < count
            invariant
                buffer@.len() <= usize::MAX,
                count == buffer@.len() / 10,
                index <= count,
                ops@.len() == index,
                forall|k: int|
                    0 <= k < index ==> (#[trigger] Op::spec_decode(Self::record(buffer@, k)))
                        == Some(ops@[k]),
            decreases count - index,
        {
            let start: usize = index * Op::encoded_len();
            let op = match Op::decode(&buffer[start..start + Op::encoded_len()]) {
                Some(op) => op,
                None => {
                    assert(Op::spec_decode(Self::record(buffer@, index as int)) is None);
                    return None;
                },
            };
            ops.push(op);
            index += 1;
        }
        assert(ops@ =~= Self::spec_decode(buffer@).unwrap());
        Some(Self::Owned(ops))
    }

    /// The binary form of the program.
    pub fn encode(&self) -> (buffer: Vec<u8>)
        requires
            10 * self@.len() <= usize::MAX,
        ensures
            buffer@ == Self::spec_encode(self@),
    {
        let ops = self.ops();
        let count: usize = ops.len();
        let mut buffer: Vec<u8> = vec![0u8; count * Op::encoded_len()];
        let mut index: usize = 0;
        while index < count
            invariant
                ops@ == self@,
                count == ops@.len(),
                10 * count <= usize::MAX,
                index <= count,
                buffer@.len() == 10 * count,
                forall|i: int| 0 <= i < 10 * index ==> buffer@[i] == Self::spec_encode(self@)[i],
            decreases count - index,
        {
            let ghost before = buffer@;
            let (_, rest) = buffer.as_mut_slice().split_at_mut(index * Op::encoded_len());
            ops[index].encode(rest);
            proof {
                let record = ops@[index as int].spec_encode_into((10 * count - 10 * index) as nat);
                lemma_encode_into_len(ops@[index as int], (10 * count - 10 * index) as nat);
                assert(buffer@ == before.subrange(0, 10 * index) + record);
                assert forall|i: int| 0 <= i < 10 * (index + 1) implies buffer@[i]
                    == Self::spec_encode(self@)[i] by {
                    if i >= 10 * index {
                        lemma_record_prefix(
                            ops@[index as int],
                            (10 * count - 10 * index) as nat,
                            i - 10 * index,
                        );
                    }
                }
            }
            index += 1;
        }
        assert(buffer@ =~= Self::spec_encode(self@));
        buffer
    }
}

/// An instruction laid over a buffer that has room for it fills the buffer.
proof fn lemma_encode_into_len(op: Op, len: nat)
    requires
        len >= 10,
    ensures
        op.spec_encode_into(len).len() == len,
{
    lemma_le_bytes_len(op.arg.payload(), op.arg.payload_width());
}

/// The first ten bytes of an instruction laid over a longer buffer are its
/// record.
proof fn lemma_record_prefix(op: Op, len: nat, i: int)
    requires
        len >= 10,
        0 <= i < 10,
    ensures
        op.spec_encode_into(len)[i] == op.spec_encode()[i],
{
    lemma_le_bytes_len(op.arg.payload(), op.arg.payload_width());
}

/// What follows the last whole record does not change what is read: a
/// buffer reads as its longest prefix made of whole records does.
pub proof fn lemma_decode_ignores_partial_record(bytes: Seq<u8>)
    ensures
        Program::spec_decode(bytes) == Program::spec_decode(
            bytes.subrange(0, 10 * (bytes.len() as int / 10)),
        ),
{
    let whole = bytes.subrange(0, 10 * (bytes.len() as int / 10));
    assert(whole.len() / 10 == bytes.len() / 10);
    assert forall|index: int| 0 <= index < bytes.len() / 10 implies Program::record(whole, index)
        == Program::record(bytes, index) by {
        assert(Program::record(whole, index) =~= Program::record(bytes, index));
    }
    if Program::decodable(bytes) {
        assert forall|index: int| 0 <= index < whole.len() / 10 implies (#[trigger] Op::spec_decode(
            Program::record(whole, index),
        )) is Some by {
            assert(Op::spec_decode(Program::record(bytes, index)) is Some);
        }
        assert(Program::spec_decode(bytes).unwrap() =~= Program::spec_decode(whole).unwrap());
    } else {
        let index = choose|index: int|
            0 <= index < bytes.len() / 10 && !((#[trigger] Op::spec_decode(
                Program::record(bytes, index),
            )) is Some);
        assert(Op::spec_decode(Program::record(whole, index)) is None);
    }
}

/// Reading the binary form of a sequence of instructions gives the sequence
/// back.
pub proof fn lemma_program_round_trip(ops: Seq<Op>)
    ensures
        Program::spec_decode(Program::spec_encode(ops)) == Some(ops),
{
    let bytes = Program::spec_encode(ops);
    assert forall|index: int| 0 <= index < ops.len() implies (#[trigger] Op::spec_decode(
        Program::record(bytes, index),
    )) == Some(ops[index]) by {
        lemma_op_round_trip(ops[index]);
        assert(Program::record(bytes, index) =~= ops[index].spec_encode());
    }
    assert(Program::spec_decode(bytes).unwrap() =~= ops);
}

} // verus!
