//! Whole numbers as big-endian bytes.

use vstd::prelude::*;

verus! {

/// The `width` lowest base-256 digits of `value`, most significant first.
pub open spec fn big_endian(value: nat, width: nat) -> Seq<u8>
    decreases width,
{
    if width == 0 {
        Seq::empty()
    } else {
        big_endian(value / 256, (width - 1) as nat).push((value % 256) as u8)
    }
}

/// `value` after dropping its `width` lowest base-256 digits.
pub open spec fn above_digits(value: nat, width: nat) -> nat
    decreases width,
{
    if width == 0 {
        value
    } else {
        above_digits(value / 256, (width - 1) as nat)
    }
}

/// `big_endian` has the width asked for.
pub proof fn lemma_big_endian_len(value: nat, width: nat)
    ensures
        big_endian(value, width).len() == width,
    decreases width,
{
    if width > 0 {
        lemma_big_endian_len(value / 256, (width - 1) as nat);
    }
}

/// Two numbers with the same `width` lowest digits and the same rest are
/// the same number.
pub proof fn lemma_big_endian_injective(first: nat, second: nat, width: nat)
    requires
        big_endian(first, width) == big_endian(second, width),
        above_digits(first, width) == above_digits(second, width),
    ensures
        first == second,
    decreases width,
{
    if width > 0 {
        let low = (width - 1) as nat;
        let a = big_endian(first / 256, low);
        let b = big_endian(second / 256, low);
        assert(a.push((first % 256) as u8).drop_last() =~= a);
        assert(b.push((second % 256) as u8).drop_last() =~= b);
        assert(a.push((first % 256) as u8).last() == (first % 256) as u8);
        assert(b.push((second % 256) as u8).last() == (second % 256) as u8);
        lemma_big_endian_injective(first / 256, second / 256, low);
    }
}

/// Different 64-bit numbers have different 8-byte encodings.
pub proof fn lemma_u64_bytes_injective(first: u64, second: u64)
    requires
        big_endian(first as nat, 8) == big_endian(second as nat, 8),
    ensures
        first == second,
{
    reveal_with_fuel(above_digits, 9);
    assert(above_digits(first as nat, 8) == 0);
    assert(above_digits(second as nat, 8) == 0);
    lemma_big_endian_injective(first as nat, second as nat, 8);
}

/// Appends the `width` lowest base-256 digits of `value` to `bytes`, most
/// significant first.
pub fn push_big_endian(bytes: &mut Vec<u8>, value: u128, width: usize)
    requires
        width <= 16,
    ensures
        final(bytes)@ == old(bytes)@ + big_endian(value as nat, width as nat),
{
    let mut digits: [u8; 16] = [0u8; 16];
    let mut rest: u128 = value;
    let mut i: usize = width;
    while i > 0
        invariant
            0 <= i <= width <= 16,
            big_endian(value as nat, width as nat) == big_endian(rest as nat, i as nat) + digits@.subrange(
                i as int,
                width as int,
            ),
        decreases i,
    {
        let ghost before = digits@;
        i -= 1;
        digits[i] = (rest % 256) as u8;
        proof {
            assert(big_endian(rest as nat, (i + 1) as nat) == big_endian(
                rest as nat / 256,
                i as nat,
            ).push((rest as nat % 256) as u8));
            assert(digits@.subrange(i as int, width as int) =~= seq![(rest % 256) as u8] + before.subrange(
                i + 1,
                width as int,
            ));
            assert(big_endian(rest as nat, (i + 1) as nat) + before.subrange(i + 1, width as int)
                =~= big_endian(rest as nat / 256, i as nat) + digits@.subrange(i as int, width as int));
        }
        rest = rest / 256;
    }
    assert(big_endian(rest as nat, 0) + digits@.subrange(0, width as int) =~= digits@.subrange(
        0,
        width as int,
    ));
    let tail = vstd::slice::slice_subrange(digits.as_slice(), 0, width);
    bytes.extend_from_slice(tail);
}

/// The 8 bytes of `value`, most significant first.
pub fn u64_bytes(value: u64) -> (bytes: Vec<u8>)
    ensures
        bytes@ == big_endian(value as nat, 8),
{
    let mut bytes: Vec<u8> = Vec::new();
    push_big_endian(&mut bytes, value as u128, 8);
    assert(bytes@ =~= big_endian(value as nat, 8));
    bytes
}

} // verus!
