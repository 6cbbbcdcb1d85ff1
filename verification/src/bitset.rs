//! Bit-level facts shared by the option flag sets.

use vstd::prelude::*;

verus! {

/// A union holds every bit of both operands.
pub proof fn lemma_u32_union_contains(a: u32, b: u32)
    ensures
        (a | b) & a == a,
        (a | b) & b == b,
{
    assert((a | b) & a == a && (a | b) & b == b) by (bit_vector);
}

/// Clearing the bits of `b` leaves none of them.
pub proof fn lemma_u32_remove_clears(a: u32, b: u32)
    ensures
        (a & !b) & b == 0,
{
    assert((a & !b) & b == 0) by (bit_vector);
}

/// A union holds every bit of both operands.
pub proof fn lemma_u64_union_contains(a: u64, b: u64)
    ensures
        (a | b) & a == a,
        (a | b) & b == b,
{
    assert((a | b) & a == a && (a | b) & b == b) by (bit_vector);
}

/// Clearing the bits of `b` leaves none of them.
pub proof fn lemma_u64_remove_clears(a: u64, b: u64)
    ensures
        (a & !b) & b == 0,
{
    assert((a & !b) & b == 0) by (bit_vector);
}

} // verus!
