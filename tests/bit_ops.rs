use bitmap_ops::{
    bit_clear_const_table, bit_clear_naive, bit_clear_static_table, bit_set_const_table,
    bit_set_naive, bit_set_static_table, bit_test_const_table, bit_test_naive,
    bit_test_static_table,
};

type TestFn = fn(&[u8], usize) -> bool;
type MutFn = fn(&mut [u8], usize);

const TESTS: [TestFn; 3] = [bit_test_naive, bit_test_const_table, bit_test_static_table];
const SETS: [MutFn; 3] = [bit_set_naive, bit_set_const_table, bit_set_static_table];
const CLEARS: [MutFn; 3] = [bit_clear_naive, bit_clear_const_table, bit_clear_static_table];

fn sample_bitmaps() -> Vec<Vec<u8>> {
    vec![
        vec![0u8],
        vec![255u8],
        vec![42u8],
        vec![0b1010_0101, 0b0101_1010, 0, 255],
        vec![1, 2, 4, 8, 16, 32, 64, 128, 3, 250],
    ]
}

fn reference_bit(b: &[u8], i: usize) -> bool {
    (b[i / 8] >> (i % 8)) & 1 == 1
}

#[test]
fn test_variants_agree_on_every_index() {
    for b in sample_bitmaps() {
        for i in 0..8 * b.len() {
            let expected = reference_bit(&b, i);
            for t in TESTS.iter() {
                assert_eq!(t(&b, i), expected, "bitmap {:?} index {}", b, i);
            }
        }
    }
}

#[test]
fn mutation_variants_agree_on_every_index() {
    for b in sample_bitmaps() {
        for i in 0..8 * b.len() {
            for ops in [SETS, CLEARS] {
                let mut copies = [b.clone(), b.clone(), b.clone()];
                for (op, copy) in ops.iter().zip(copies.iter_mut()) {
                    op(copy, i);
                }
                assert_eq!(copies[0], copies[1]);
                assert_eq!(copies[1], copies[2]);
            }
        }
    }
}

#[test]
fn set_and_clear_are_idempotent() {
    for b in sample_bitmaps() {
        for i in 0..8 * b.len() {
            for ops in [SETS, CLEARS] {
                for op in ops.iter() {
                    let mut once = b.clone();
                    op(&mut once, i);
                    let mut twice = once.clone();
                    op(&mut twice, i);
                    assert_eq!(once, twice);
                }
            }
        }
    }
}

#[test]
fn set_then_test_is_true_and_clear_then_test_is_false() {
    for b in sample_bitmaps() {
        for i in 0..8 * b.len() {
            for k in 0..3 {
                let mut s = b.clone();
                SETS[k](&mut s, i);
                assert!(TESTS[k](&s, i));
                let mut c = b.clone();
                CLEARS[k](&mut c, i);
                assert!(!TESTS[k](&c, i));
            }
        }
    }
}

#[test]
fn mutation_touches_only_the_addressed_bit() {
    for b in sample_bitmaps() {
        for i in 0..8 * b.len() {
            for ops in [SETS, CLEARS] {
                for op in ops.iter() {
                    let mut m = b.clone();
                    op(&mut m, i);
                    assert_eq!(m.len(), b.len());
                    for k in 0..b.len() {
                        if k != i / 8 {
                            assert_eq!(m[k], b[k]);
                        }
                    }
                    for j in 0..8 * b.len() {
                        if j != i {
                            assert_eq!(reference_bit(&m, j), reference_bit(&b, j));
                        }
                    }
                }
            }
        }
    }
}

#[test]
fn set_test_clear_on_a_zero_byte() {
    for k in 0..3 {
        let mut b = [0b0000_0000u8];
        SETS[k](&mut b, 3);
        assert_eq!(b, [0b0000_1000u8]);
        assert_eq!(b[0], 8);
        assert!(TESTS[k](&b, 3));
        CLEARS[k](&mut b, 3);
        assert_eq!(b, [0b0000_0000u8]);
    }
}

#[test]
fn clear_lowest_bit_of_a_full_byte() {
    for k in 0..3 {
        let mut b = [255u8];
        CLEARS[k](&mut b, 0);
        assert_eq!(b, [0b1111_1110u8]);
        assert_eq!(b[0], 254);
        assert!(!TESTS[k](&b, 0));
        for bit in 1..8 {
            assert!(TESTS[k](&b, bit));
        }
    }
}

#[test]
fn last_valid_index_is_accepted() {
    for len in [1usize, 2, 7, 32] {
        let last = 8 * len - 1;
        for k in 0..3 {
            let mut b = vec![0u8; len];
            assert!(!TESTS[k](&b, last));
            SETS[k](&mut b, last);
            assert_eq!(b[len - 1], 128);
            assert!(TESTS[k](&b, last));
            for byte in &b[..len - 1] {
                assert_eq!(*byte, 0);
            }
            CLEARS[k](&mut b, last);
            assert!(b.iter().all(|x| *x == 0));
        }
    }
}

#[test]
fn each_bit_position_has_its_own_mask() {
    let masks = [1u8, 2, 4, 8, 16, 32, 64, 128];
    for k in 0..3 {
        for bit in 0..8 {
            let mut b = [0u8, 0u8];
            SETS[k](&mut b, 8 + bit);
            assert_eq!(b, [0u8, masks[bit]]);
            let mut c = [255u8, 255u8];
            CLEARS[k](&mut c, 8 + bit);
            assert_eq!(c, [255u8, 255 - masks[bit]]);
        }
    }
}

#[test]
fn test_reads_a_mixed_pattern() {
    // 42 is 0b0010_1010: bits 1, 3 and 5 are set.
    let b = [42u8, 42u8];
    let expected = [false, true, false, true, false, true, false, false];
    for k in 0..3 {
        for i in 0..16 {
            assert_eq!(TESTS[k](&b, i), expected[i % 8]);
        }
    }
}

#[test]
fn set_on_a_set_bit_and_clear_on_a_clear_bit_change_nothing() {
    for k in 0..3 {
        let mut b = [42u8];
        SETS[k](&mut b, 1);
        assert_eq!(b, [42u8]);
        CLEARS[k](&mut b, 0);
        assert_eq!(b, [42u8]);
        SETS[k](&mut b, 0);
        assert_eq!(b, [43u8]);
        CLEARS[k](&mut b, 5);
        assert_eq!(b, [11u8]);
    }
}
