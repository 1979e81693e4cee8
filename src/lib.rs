//! Single-bit test, set and clear on a byte-addressed bitmap, in three
//! interchangeable strategies: arithmetic on the index, a mask table built
//! on each call, and a mask table shared by the whole program.
//!
//! Bit `i` of a bitmap lives in byte `i / 8`, at bit position `i % 8` of that
//! byte (position 0 being the least significant bit). Every operation asks
//! that `i < 8 * bitmap.len()`. Verified callers cannot pass a larger index;
//! an unchecked caller that does meets the slice bounds check, which panics.

pub mod model;
pub mod naive;
pub mod const_table;
pub mod static_table;
pub mod laws;

pub use const_table::{bit_clear_const_table, bit_set_const_table, bit_test_const_table};
pub use naive::{bit_clear_naive, bit_set_naive, bit_test_naive};
pub use static_table::{bit_clear_static_table, bit_set_static_table, bit_test_static_table};
