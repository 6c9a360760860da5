//! Bit strings as they stand in a cell: a sequence of booleans, the most
//! significant bit of every number first.

use vstd::prelude::*;

verus! {

/// Two to the power `width`.
pub open spec fn pow2(width: nat) -> nat
    decreases width,
{
    if width == 0 {
        1
    } else {
        2 * pow2((width - 1) as nat)
    }
}

/// Whether `value` can be written in `width` bits.
pub open spec fn fits(value: nat, width: nat) -> bool {
    value < pow2(width)
}

/// The `width` low bits of `value`, most significant first.
pub open spec fn be_bits(value: nat, width: nat) -> Seq<bool>
    decreases width,
{
    if width == 0 {
        Seq::empty()
    } else {
        be_bits(value / 2, (width - 1) as nat).push(value % 2 == 1)
    }
}

/// The number that a bit string spells, most significant bit first.
pub open spec fn bits_value(bits: Seq<bool>) -> nat
    decreases bits.len(),
{
    if bits.len() == 0 {
        0
    } else {
        2 * bits_value(bits.drop_last()) + if bits.last() {
            1nat
        } else {
            0nat
        }
    }
}

/// The field of `width` bits that starts at bit `start` of `bits`, read as a number.
pub open spec fn read_uint(bits: Seq<bool>, start: int, width: int) -> nat {
    bits_value(bits.subrange(start, start + width))
}

/// The bits of a byte string, eight per byte.
pub open spec fn bytes_bits(bytes: Seq<u8>) -> Seq<bool>
    decreases bytes.len(),
{
    if bytes.len() == 0 {
        Seq::empty()
    } else {
        bytes_bits(bytes.drop_last()) + be_bits(bytes.last() as nat, 8)
    }
}

/// A field of `width` bits is `width` bits long.
pub proof fn lemma_be_bits_len(value: nat, width: nat)
    ensures
        be_bits(value, width).len() == width,
    decreases width,
{
    if width > 0 {
        lemma_be_bits_len(value / 2, (width - 1) as nat);
    }
}

/// A byte string has eight bits for each byte.
pub proof fn lemma_bytes_bits_len(bytes: Seq<u8>)
    ensures
        bytes_bits(bytes).len() == 8 * bytes.len(),
    decreases bytes.len(),
{
    if bytes.len() > 0 {
        lemma_bytes_bits_len(bytes.drop_last());
        lemma_be_bits_len(bytes.last() as nat, 8);
    }
}

/// A number that fits its field is read back from it unchanged.
pub proof fn lemma_bits_value_of_be_bits(value: nat, width: nat)
    requires
        fits(value, width),
    ensures
        bits_value(be_bits(value, width)) == value,
    decreases width,
{
    if width > 0 {
        let rest = be_bits(value / 2, (width - 1) as nat);
        lemma_bits_value_of_be_bits(value / 2, (width - 1) as nat);
        assert(be_bits(value, width).drop_last() =~= rest);
    }
}

/// Every value of a 32-bit, a 64-bit and an 8-bit integer fits its own width.
pub proof fn lemma_machine_widths()
    ensures
        pow2(8) == 0x100,
        pow2(32) == 0x1_0000_0000,
        pow2(64) == 0x1_0000_0000_0000_0000,
{
    reveal_with_fuel(pow2, 9);
    assert(pow2(8) == 0x100);
    assert(pow2(16) == 0x1_0000) by {
        lemma_pow2_add(8, 8);
    }
    assert(pow2(32) == 0x1_0000_0000) by {
        lemma_pow2_add(16, 16);
    }
    assert(pow2(64) == 0x1_0000_0000_0000_0000) by {
        lemma_pow2_add(32, 32);
    }
}

/// Powers of two multiply as their exponents add.
pub proof fn lemma_pow2_add(a: nat, b: nat)
    ensures
        pow2(a + b) == pow2(a) * pow2(b),
    decreases b,
{
    if b == 0 {
        assert(pow2(a) * 1 == pow2(a));
    } else {
        lemma_pow2_add(a, (b - 1) as nat);
        assert(pow2(a + b) == 2 * pow2((a + b - 1) as nat));
        assert(2 * (pow2(a) * pow2((b - 1) as nat)) == pow2(a) * (2 * pow2((b - 1) as nat)))
            by (nonlinear_arith);
    }
}

/// The field that was appended last can be read at the place where it was put.
pub proof fn lemma_read_appended(prefix: Seq<bool>, value: nat, width: nat, suffix: Seq<bool>)
    requires
        fits(value, width),
    ensures
        read_uint(prefix + be_bits(value, width) + suffix, prefix.len() as int, width as int)
            == value,
{
    lemma_be_bits_len(value, width);
    lemma_bits_value_of_be_bits(value, width);
    let all = prefix + be_bits(value, width) + suffix;
    assert(all.subrange(prefix.len() as int, prefix.len() as int + width as int) =~= be_bits(
        value,
        width,
    ));
}

} // verus!
