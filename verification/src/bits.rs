//! Facts about masking machine words, shared by the flag registers.
use vstd::prelude::*;

verus! {

/// Masking a word with the defined bits leaves no undefined bit, masking
/// twice changes nothing more, and a word without undefined bits is its own
/// mask and no larger than the defined bits.
pub(crate) proof fn lemma_truncate(raw: u64, defined: u64)
    by (bit_vector)
    ensures
        (raw & defined) & !defined == 0,
        (raw & defined) & defined == raw & defined,
        raw & !defined == 0 ==> raw & defined == raw,
        raw & !defined == 0 ==> raw <= defined,
        defined & !defined == 0,
{
}

/// Masking a word with the defined bits keeps every bit of a mask that lies
/// within them.
pub(crate) proof fn lemma_truncate_keeps(raw: u64, defined: u64, mask: u64)
    by (bit_vector)
    requires
        mask & !defined == 0,
    ensures
        (raw & defined) & mask == raw & mask,
        mask != 0 ==> defined & mask != 0,
{
}

/// The bitwise or of two words has a bit of `mask` exactly if one of them
/// has, and the empty word has none.
pub(crate) proof fn lemma_union(a: u64, b: u64, mask: u64)
    by (bit_vector)
    ensures
        ((a | b) & mask != 0) == (a & mask != 0 || b & mask != 0),
        ((a | b) & mask == 0) == (a & mask == 0 && b & mask == 0),
        0u64 & mask == 0,
{
}

/// Two single bits overlap exactly if they are the same bit.
pub(crate) proof fn lemma_single_bits(p: u64, q: u64)
    by (bit_vector)
    requires
        p < 64,
        q < 64,
    ensures
        ((1u64 << p) & (1u64 << q) != 0) == (p == q),
{
}

} // verus!
