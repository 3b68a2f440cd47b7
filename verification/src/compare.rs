//! Timing-safe byte-sequence equality. The comparison walks the maximum of
//! the two lengths, substituting a zero sentinel past the end of the shorter
//! operand, and folds every difference into one accumulator, so that the
//! running time does not depend on where the first mismatch sits.

use vstd::prelude::*;

verus! {

/// The byte of `s` at index `i`, or the zero sentinel out of bounds.
pub open spec fn byte_or_zero(s: Seq<u8>, i: int) -> u8 {
    if 0 <= i < s.len() {
        s[i]
    } else {
        0
    }
}

/// Whether the two byte sequences are equal, decided without short-circuiting
/// on the first mismatch.
pub fn constant_time_eq(left: &[u8], right: &[u8]) -> (r: bool)
    ensures
        r == (left@ == right@),
{
    let left_len = left.len();
    let right_len = right.len();
    let max_length = if left_len > right_len {
        left_len
    } else {
        right_len
    };
    let mut diff: usize = left_len ^ right_len;
    proof {
        assert((left_len ^ right_len == 0) == (left_len == right_len)) by (bit_vector);
    }
    let mut index: usize = 0;
    while index < max_length
        invariant
            left_len == left@.len(),
            right_len == right@.len(),
            max_length == if left_len > right_len {
                left_len
            } else {
                right_len
            },
            index <= max_length,
            (diff == 0) <==> (left@.len() == right@.len() && (forall|j: int|
                0 <= j < index ==> byte_or_zero(left@, j) == byte_or_zero(right@, j))),
        decreases max_length - index,
    {
        let left_value: u8 = if index < left_len {
            left[index]
        } else {
            0
        };
        let right_value: u8 = if index < right_len {
            right[index]
        } else {
            0
        };
        let byte_diff: u8 = left_value ^ right_value;
        proof {
            assert((left_value ^ right_value == 0) == (left_value == right_value)) by (bit_vector);
        }
        let wide: usize = byte_diff as usize;
        let previous = diff;
        diff = diff | wide;
        proof {
            assert((previous | wide == 0) == (previous == 0 && wide == 0)) by (bit_vector);
            assert(byte_or_zero(left@, index as int) == left_value);
            assert(byte_or_zero(right@, index as int) == right_value);
        }
        index = index + 1;
    }
    proof {
        if left@.len() == right@.len() && (forall|j: int|
            0 <= j < max_length ==> byte_or_zero(left@, j) == byte_or_zero(right@, j)) {
            assert forall|j: int| 0 <= j < left@.len() implies left@[j] == right@[j] by {
                assert(byte_or_zero(left@, j) == byte_or_zero(right@, j));
            }
            assert(left@ =~= right@);
        }
    }
    diff == 0
}

} // verus!
