//! The arithmetic strategy: byte offset by division, bit offset by remainder,
//! and the mask made by a shift on each call.

use vstd::prelude::*;
use crate::model::{
    bit_at, bits, clear_bit, set_bit, valid_index, lemma_and_mask_tests_bit, lemma_clear_bit_bits,
    lemma_set_bit_bits,
};

verus! {

/// Whether bit `idx` of `bitmap` is set.
pub fn bit_test_naive(bitmap: &[u8], idx: usize) -> (r: bool)
    requires
        valid_index(bitmap@, idx as int),
    ensures
        r == bit_at(bitmap@, idx as int),
{
    let byte = bitmap[idx / 8];
    let shift = (idx % 8) as u8;
    proof {
        lemma_and_mask_tests_bit(byte, shift);
    }
    byte & (1u8 << shift) != 0
}

/// Sets bit `idx` of `bitmap` to 1.
pub fn bit_set_naive(bitmap: &mut [u8], idx: usize)
    requires
        valid_index(old(bitmap)@, idx as int),
    ensures
        final(bitmap)@ == set_bit(old(bitmap)@, idx as int),
        bits(final(bitmap)@) == bits(old(bitmap)@).update(idx as int, true),
{
    proof {
        lemma_set_bit_bits(bitmap@, idx as int);
    }
    let byte = bitmap[idx / 8];
    let shift = (idx % 8) as u8;
    bitmap[idx / 8] = byte | (1u8 << shift);
}

/// Clears bit `idx` of `bitmap` to 0.
pub fn bit_clear_naive(bitmap: &mut [u8], idx: usize)
    requires
        valid_index(old(bitmap)@, idx as int),
    ensures
        final(bitmap)@ == clear_bit(old(bitmap)@, idx as int),
        bits(final(bitmap)@) == bits(old(bitmap)@).update(idx as int, false),
{
    proof {
        lemma_clear_bit_bits(bitmap@, idx as int);
    }
    let byte = bitmap[idx / 8];
    let shift = (idx % 8) as u8;
    bitmap[idx / 8] = byte & !(1u8 << shift);
}

} // verus!
