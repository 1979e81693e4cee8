//! The mathematical view of a bitmap: a sequence of bytes read as a sequence
//! of bits, and the effect of setting or clearing one of them.

use vstd::prelude::*;

verus! {

/// A bit index that addresses a bit of `b`.
pub open spec fn valid_index(b: Seq<u8>, i: int) -> bool {
    0 <= i < 8 * b.len()
}

/// The byte with only bit `k` set.
pub open spec fn bit_mask(k: int) -> u8 {
    1u8 << (k as u8)
}

/// Whether bit `i` of the bitmap `b` is set.
pub open spec fn bit_at(b: Seq<u8>, i: int) -> bool {
    (b[i / 8] >> ((i % 8) as u8)) & 1u8 == 1u8
}

/// The bitmap read as a sequence of flags, one per bit index.
pub open spec fn bits(b: Seq<u8>) -> Seq<bool> {
    Seq::new((8 * b.len()) as nat, |i: int| bit_at(b, i))
}

/// `b` with bit `i` set and every other bit kept.
pub open spec fn set_bit(b: Seq<u8>, i: int) -> Seq<u8> {
    b.update(i / 8, b[i / 8] | bit_mask(i % 8))
}

/// `b` with bit `i` cleared and every other bit kept.
pub open spec fn clear_bit(b: Seq<u8>, i: int) -> Seq<u8> {
    b.update(i / 8, b[i / 8] & !bit_mask(i % 8))
}

/// In one byte, or-ing in the mask of bit `k` sets bit `k` and keeps the others.
pub proof fn lemma_or_mask_bit(x: u8, k: u8, j: u8)
    requires
        k < 8,
        j < 8,
    ensures
        ((x | (1u8 << k)) >> j) & 1u8 == (if j == k { 1u8 } else { (x >> j) & 1u8 }),
{
    assert(((x | (1u8 << k)) >> j) & 1u8 == (if j == k { 1u8 } else { (x >> j) & 1u8 }))
        by (bit_vector)
        requires
            k < 8,
            j < 8,
    ;
}

/// In one byte, and-ing with the complement of the mask of bit `k` clears bit
/// `k` and keeps the others.
pub proof fn lemma_and_not_mask_bit(x: u8, k: u8, j: u8)
    requires
        k < 8,
        j < 8,
    ensures
        ((x & !(1u8 << k)) >> j) & 1u8 == (if j == k { 0u8 } else { (x >> j) & 1u8 }),
{
    assert(((x & !(1u8 << k)) >> j) & 1u8 == (if j == k { 0u8 } else { (x >> j) & 1u8 }))
        by (bit_vector)
        requires
            k < 8,
            j < 8,
    ;
}

/// Bit `k` of a byte is set exactly when the byte and the mask of bit `k`
/// have a bit in common.
pub proof fn lemma_and_mask_tests_bit(x: u8, k: u8)
    requires
        k < 8,
    ensures
        (x & (1u8 << k) != 0u8) == ((x >> k) & 1u8 == 1u8),
{
    assert((x & (1u8 << k) != 0u8) == ((x >> k) & 1u8 == 1u8)) by (bit_vector)
        requires
            k < 8,
    ;
}

/// The shift-and-mask split of a bit index agrees with division and
/// remainder by 8, and the mask of each bit position is the power of two
/// that a lookup table holds at that position.
pub proof fn lemma_table_index(i: usize)
    ensures
        i >> 3usize == i / 8,
        i & 7usize == i % 8,
        i % 8 == 0 ==> bit_mask((i % 8) as int) == 1u8 && !bit_mask((i % 8) as int) == 254u8,
        i % 8 == 1 ==> bit_mask((i % 8) as int) == 2u8 && !bit_mask((i % 8) as int) == 253u8,
        i % 8 == 2 ==> bit_mask((i % 8) as int) == 4u8 && !bit_mask((i % 8) as int) == 251u8,
        i % 8 == 3 ==> bit_mask((i % 8) as int) == 8u8 && !bit_mask((i % 8) as int) == 247u8,
        i % 8 == 4 ==> bit_mask((i % 8) as int) == 16u8 && !bit_mask((i % 8) as int) == 239u8,
        i % 8 == 5 ==> bit_mask((i % 8) as int) == 32u8 && !bit_mask((i % 8) as int) == 223u8,
        i % 8 == 6 ==> bit_mask((i % 8) as int) == 64u8 && !bit_mask((i % 8) as int) == 191u8,
        i % 8 == 7 ==> bit_mask((i % 8) as int) == 128u8 && !bit_mask((i % 8) as int) == 127u8,
{
    assert(i >> 3usize == i / 8) by (bit_vector);
    assert(i & 7usize == i % 8) by (bit_vector);
    assert(1u8 << 0u8 == 1u8 && !(1u8 << 0u8) == 254u8) by (bit_vector);
    assert(1u8 << 1u8 == 2u8 && !(1u8 << 1u8) == 253u8) by (bit_vector);
    assert(1u8 << 2u8 == 4u8 && !(1u8 << 2u8) == 251u8) by (bit_vector);
    assert(1u8 << 3u8 == 8u8 && !(1u8 << 3u8) == 247u8) by (bit_vector);
    assert(1u8 << 4u8 == 16u8 && !(1u8 << 4u8) == 239u8) by (bit_vector);
    assert(1u8 << 5u8 == 32u8 && !(1u8 << 5u8) == 223u8) by (bit_vector);
    assert(1u8 << 6u8 == 64u8 && !(1u8 << 6u8) == 191u8) by (bit_vector);
    assert(1u8 << 7u8 == 128u8 && !(1u8 << 7u8) == 127u8) by (bit_vector);
}

/// Setting bit `i` sets it and leaves every other bit as it was.
pub proof fn lemma_set_bit_bits(b: Seq<u8>, i: int)
    requires
        valid_index(b, i),
    ensures
        set_bit(b, i).len() == b.len(),
        bits(set_bit(b, i)) == bits(b).update(i, true),
{
    let n = set_bit(b, i);
    assert forall|j: int| 0 <= j < 8 * b.len() implies bit_at(n, j) == (if j == i {
        true
    } else {
        bit_at(b, j)
    }) by {
        if j / 8 == i / 8 {
            lemma_or_mask_bit(b[i / 8], (i % 8) as u8, (j % 8) as u8);
        }
    }
    assert(bits(n) =~= bits(b).update(i, true));
}

/// Clearing bit `i` clears it and leaves every other bit as it was.
pub proof fn lemma_clear_bit_bits(b: Seq<u8>, i: int)
    requires
        valid_index(b, i),
    ensures
        clear_bit(b, i).len() == b.len(),
        bits(clear_bit(b, i)) == bits(b).update(i, false),
{
    let n = clear_bit(b, i);
    assert forall|j: int| 0 <= j < 8 * b.len() implies bit_at(n, j) == (if j == i {
        false
    } else {
        bit_at(b, j)
    }) by {
        if j / 8 == i / 8 {
            lemma_and_not_mask_bit(b[i / 8], (i % 8) as u8, (j % 8) as u8);
        }
    }
    assert(bits(n) =~= bits(b).update(i, false));
}

} // verus!
