//! The shared table strategy: the same index arithmetic as the per-call
//! table, with the masks looked up in tables defined once for the whole
//! program.

use vstd::prelude::*;
use crate::model::{
    bit_at, bits, clear_bit, set_bit, valid_index, lemma_and_mask_tests_bit, lemma_clear_bit_bits,
    lemma_set_bit_bits, lemma_table_index,
};

verus! {

/// The byte with only bit `k` set, at position `k`.
pub const BIT_MASK: [u8; 8] = [1, 2, 4, 8, 16, 32, 64, 128];

/// The byte with every bit but bit `k` set, at position `k`.
pub const UNSET_BIT_MASK: [u8; 8] = [254, 253, 251, 247, 239, 223, 191, 127];

/// Whether bit `idx` of `bitmap` is set.
pub fn bit_test_static_table(bitmap: &[u8], idx: usize) -> (r: bool)
    requires
        valid_index(bitmap@, idx as int),
    ensures
        r == bit_at(bitmap@, idx as int),
{
    proof {
        lemma_table_index(idx);
        lemma_and_mask_tests_bit(bitmap@[(idx / 8) as int], (idx % 8) as u8);
    }
    bitmap[idx >> 3] & BIT_MASK[idx & 7] != 0
}

/// Sets bit `idx` of `bitmap` to 1.
pub fn bit_set_static_table(bitmap: &mut [u8], idx: usize)
    requires
        valid_index(old(bitmap)@, idx as int),
    ensures
        final(bitmap)@ == set_bit(old(bitmap)@, idx as int),
        bits(final(bitmap)@) == bits(old(bitmap)@).update(idx as int, true),
{
    proof {
        lemma_set_bit_bits(bitmap@, idx as int);
    }
    proof {
        lemma_table_index(idx);
    }
    let byte = bitmap[idx >> 3];
    bitmap[idx >> 3] = byte | BIT_MASK[idx & 7];
}

/// Clears bit `idx` of `bitmap` to 0.
pub fn bit_clear_static_table(bitmap: &mut [u8], idx: usize)
    requires
        valid_index(old(bitmap)@, idx as int),
    ensures
        final(bitmap)@ == clear_bit(old(bitmap)@, idx as int),
        bits(final(bitmap)@) == bits(old(bitmap)@).update(idx as int, false),
{
    proof {
        lemma_clear_bit_bits(bitmap@, idx as int);
    }
    proof {
        lemma_table_index(idx);
    }
    let byte = bitmap[idx >> 3];
    bitmap[idx >> 3] = byte & UNSET_BIT_MASK[idx & 7];
}

} // verus!
