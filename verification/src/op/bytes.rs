//! Little-endian digits.
//!
//! A number is laid out in a buffer as its digits to the base 256, least
//! significant first. `le_bytes` gives the digits of a number, `le_value` the
//! number that a run of digits stands for.

use vstd::prelude::*;

verus! {

/// 256 to the power `width`: how many numbers `width` bytes can tell apart.
pub open spec fn radix(width: nat) -> nat
    decreases width,
{
    if width == 0 {
        1
    } else {
        256 * radix((width - 1) as nat)
    }
}

/// The `width` least significant digits of `value`, least significant first.
pub open spec fn le_bytes(value: nat, width: nat) -> Seq<u8>
    decreases width,
{
    if width == 0 {
        Seq::empty()
    } else {
        seq![(value % 256) as u8] + le_bytes(value / 256, (width - 1) as nat)
    }
}

/// The number whose digits, least significant first, are `bytes`.
pub open spec fn le_value(bytes: Seq<u8>) -> nat
    decreases bytes.len(),
{
    if bytes.len() == 0 {
        0
    } else {
        bytes[0] as nat + 256 * le_value(bytes.drop_first())
    }
}

/// `len` zero bytes.
pub open spec fn zeros(len: nat) -> Seq<u8> {
    Seq::new(len, |i: int| 0u8)
}

/// `le_bytes` yields as many digits as it is asked for.
pub proof fn lemma_le_bytes_len(value: nat, width: nat)
    ensures
        le_bytes(value, width).len() == width,
    decreases width,
{
    if width > 0 {
        lemma_le_bytes_len(value / 256, (width - 1) as nat);
    }
}

/// A run of `n` digits stands for a number below `radix(n)`.
pub proof fn lemma_le_value_bound(bytes: Seq<u8>)
    ensures
        le_value(bytes) < radix(bytes.len()),
    decreases bytes.len(),
{
    if bytes.len() > 0 {
        lemma_le_value_bound(bytes.drop_first());
    }
}

/// A value that fits in `width` digits is the number that its `width` digits
/// stand for.
pub proof fn lemma_le_value_of_bytes(value: nat, width: nat)
    requires
        value < radix(width),
    ensures
        le_value(le_bytes(value, width)) == value,
    decreases width,
{
    if width > 0 {
        let rest = le_bytes(value / 256, (width - 1) as nat);
        lemma_le_value_of_bytes(value / 256, (width - 1) as nat);
        assert(le_bytes(value, width).drop_first() =~= rest);
    }
}

/// The digits of a value that fits in `width` digits are those `width`
/// digits, followed by zeros.
pub proof fn lemma_le_bytes_padded(value: nat, width: nat, len: nat)
    requires
        value < radix(width),
        width <= len,
    ensures
        le_bytes(value, len) == le_bytes(value, width) + zeros((len - width) as nat),
    decreases len,
{
    if width == 0 {
        if len > 0 {
            lemma_le_bytes_padded(0, 0, (len - 1) as nat);
        }
        assert(le_bytes(value, len) =~= zeros(len));
    } else {
        lemma_le_bytes_padded(value / 256, (width - 1) as nat, (len - 1) as nat);
        lemma_le_bytes_len(value / 256, (width - 1) as nat);
    }
    lemma_le_bytes_len(value, width);
    assert(le_bytes(value, len) =~= le_bytes(value, width) + zeros((len - width) as nat));
}

/// Writes the digits of `value` over the whole of `buffer`, least significant
/// first.
pub(crate) fn write_le(buffer: &mut [u8], value: u64)
    ensures
        final(buffer)@ == le_bytes(value as nat, old(buffer)@.len()),
{
    let len: usize = buffer.len();
    let mut rest: u64 = value;
    let mut at: usize = 0;
    while at < len
        invariant
            at <= len,
            buffer@.len() == len,
            buffer@.subrange(0, at as int) + le_bytes(rest as nat, (len - at) as nat) == le_bytes(
                value as nat,
                len as nat,
            ),
        decreases len - at,
    {
        let ghost before = buffer@;
        buffer[at] = (rest % 256) as u8;
        proof {
            let tail = le_bytes((rest / 256) as nat, (len - at - 1) as nat);
            assert(buffer@.subrange(0, at + 1) + tail =~= before.subrange(0, at as int) + le_bytes(
                rest as nat,
                (len - at) as nat,
            ));
        }
        rest = rest / 256;
        at += 1;
    }
    assert(buffer@ =~= buffer@.subrange(0, at as int) + le_bytes(rest as nat, 0));
}

/// Reads the number that the `width` bytes of `buffer` from `start` stand for.
pub(crate) fn read_le(buffer: &[u8], start: usize, width: usize) -> (value: u64)
    requires
        width <= 8,
        start + width <= buffer@.len(),
    ensures
        value == le_value(buffer@.subrange(start as int, start + width)),
{
    assert(buffer@.len() == buffer.len());
    let mut value: u64 = 0;
    let mut left: usize = width;
    while left > 0
        invariant
            left <= width <= 8,
            start + width <= buffer@.len() <= usize::MAX,
            value == le_value(buffer@.subrange(start + left, start + width)),
        decreases left,
    {
        proof {
            let run = buffer@.subrange(start + left, start + width);
            let longer = buffer@.subrange(start + left - 1, start + width);
            lemma_le_value_bound(run);
            reveal_with_fuel(radix, 9);
            assert(longer.drop_first() =~= run);
        }
        left -= 1;
        value = value * 256 + buffer[start + left] as u64;
    }
    value
}

} // verus!
