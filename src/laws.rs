//! Properties of the bit operations that relate several calls or several
//! strategies, stated over the model of `crate::model`.

use vstd::prelude::*;
use crate::model::{
    bit_at, bit_mask, bits, clear_bit, set_bit, valid_index, lemma_and_mask_tests_bit,
    lemma_clear_bit_bits, lemma_set_bit_bits, lemma_table_index,
};
use crate::static_table::{BIT_MASK, UNSET_BIT_MASK};

verus! {

/// The three strategies test the same bit: the division-and-shift formula
/// and the shift-and-table formula both read bit `i` of `b`.
pub proof fn lemma_test_variants_agree(b: Seq<u8>, i: usize)
    requires
        valid_index(b, i as int),
    ensures
        bit_at(b, i as int) == (b[(i / 8) as int] & (1u8 << ((i % 8) as u8)) != 0u8),
        bit_at(b, i as int) == (b[(i >> 3usize) as int] & BIT_MASK@[(i & 7usize) as int] != 0u8),
{
    lemma_table_index(i);
    lemma_and_mask_tests_bit(b[(i / 8) as int], (i % 8) as u8);
}

/// The three strategies leave the same bytes behind: setting (or clearing)
/// through a computed mask and through a table gives one and the same
/// bitmap.
pub proof fn lemma_mutation_variants_agree(b: Seq<u8>, i: usize)
    requires
        valid_index(b, i as int),
    ensures
        set_bit(b, i as int) == b.update((i / 8) as int, b[(i / 8) as int] | (1u8 << ((i % 8) as u8))),
        set_bit(b, i as int) == b.update(
            (i >> 3usize) as int,
            b[(i >> 3usize) as int] | BIT_MASK@[(i & 7usize) as int],
        ),
        clear_bit(b, i as int) == b.update(
            (i / 8) as int,
            b[(i / 8) as int] & !(1u8 << ((i % 8) as u8)),
        ),
        clear_bit(b, i as int) == b.update(
            (i >> 3usize) as int,
            b[(i >> 3usize) as int] & UNSET_BIT_MASK@[(i & 7usize) as int],
        ),
{
    lemma_table_index(i);
}

/// Setting a bit twice is the same as setting it once, and clearing a bit
/// twice is the same as clearing it once.
pub proof fn lemma_set_clear_idempotent(b: Seq<u8>, i: int)
    requires
        valid_index(b, i),
    ensures
        set_bit(set_bit(b, i), i) == set_bit(b, i),
        clear_bit(clear_bit(b, i), i) == clear_bit(b, i),
{
    let x = b[i / 8];
    let m = bit_mask(i % 8);
    assert((x | m) | m == x | m) by (bit_vector);
    assert((x & !m) & !m == x & !m) by (bit_vector);
    assert(set_bit(set_bit(b, i), i) =~= set_bit(b, i));
    assert(clear_bit(clear_bit(b, i), i) =~= clear_bit(b, i));
}

/// After setting bit `i` it tests as set; after clearing it, as clear.
pub proof fn lemma_set_clear_then_test(b: Seq<u8>, i: int)
    requires
        valid_index(b, i),
    ensures
        bit_at(set_bit(b, i), i),
        !bit_at(clear_bit(b, i), i),
{
    lemma_set_bit_bits(b, i);
    lemma_clear_bit_bits(b, i);
    assert(bits(set_bit(b, i))[i]);
    assert(!bits(clear_bit(b, i))[i]);
}

/// Setting or clearing bit `i` changes no byte but byte `i / 8`, keeps the
/// length, and changes no bit but bit `i`.
pub proof fn lemma_mutation_is_local(b: Seq<u8>, i: int)
    requires
        valid_index(b, i),
    ensures
        set_bit(b, i).len() == b.len(),
        clear_bit(b, i).len() == b.len(),
        forall|k: int| 0 <= k < b.len() && k != i / 8 ==> set_bit(b, i)[k] == b[k],
        forall|k: int| 0 <= k < b.len() && k != i / 8 ==> clear_bit(b, i)[k] == b[k],
        forall|j: int| valid_index(b, j) && j != i ==> bit_at(set_bit(b, i), j) == bit_at(b, j),
        forall|j: int| valid_index(b, j) && j != i ==> bit_at(clear_bit(b, i), j) == bit_at(b, j),
{
    lemma_set_bit_bits(b, i);
    lemma_clear_bit_bits(b, i);
    assert forall|j: int| valid_index(b, j) && j != i implies bit_at(set_bit(b, i), j) == bit_at(
        b,
        j,
    ) && bit_at(clear_bit(b, i), j) == bit_at(b, j) by {
        assert(bits(set_bit(b, i))[j] == bits(b)[j]);
        assert(bits(clear_bit(b, i))[j] == bits(b)[j]);
    }
}

} // verus!
