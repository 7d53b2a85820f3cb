//! The ready-thread bitset's bit-level vocabulary and lemmas.
//!
//! The set of parked worker threads is one 64-bit word; bit `t` stands for
//! thread `t`. The lemmas here relate the word-level operations the server
//! performs — set a bit, clear a bit, scan from the bottom — to per-bit
//! statements over [`has_bit`].

use vstd::prelude::*;

verus! {

/// How many worker threads one server can track: the width of the bitset.
pub const MAX_THREADS: usize = 64;

/// Whether bit `tid` of `mask` is set: thread `tid` is parked.
pub open spec fn has_bit(mask: u64, tid: u64) -> bool {
    tid < 64 && (mask >> tid) & 1u64 == 1u64
}

/// Setting bit `tid` sets exactly that bit: every thread is parked afterwards
/// iff it was parked before or is the one being parked.
pub proof fn lemma_set_bit(mask: u64, tid: u64)
    requires
        tid < 64,
    ensures
        forall|t: u64|
            t < 64 ==> #[trigger] has_bit(mask | (1u64 << tid), t) == (has_bit(mask, t)
                || t == tid),
{
    assert forall|t: u64|
        t < 64 implies #[trigger] has_bit(mask | (1u64 << tid), t) == (has_bit(mask, t)
            || t == tid) by {
        assert(has_bit(mask | (1u64 << tid), t) == (has_bit(mask, t) || t == tid)) by (bit_vector)
            requires
                t < 64,
                tid < 64,
        ;
    }
}

/// Clearing bit `tid` clears exactly that bit.
pub proof fn lemma_clear_bit(mask: u64, tid: u64)
    requires
        tid < 64,
    ensures
        forall|t: u64|
            t < 64 ==> #[trigger] has_bit(mask & !(1u64 << tid), t) == (has_bit(mask, t)
                && t != tid),
{
    assert forall|t: u64|
        t < 64 implies #[trigger] has_bit(mask & !(1u64 << tid), t) == (has_bit(mask, t)
            && t != tid) by {
        assert(has_bit(mask & !(1u64 << tid), t) == (has_bit(mask, t) && t != tid)) by (bit_vector)
            requires
                t < 64,
                tid < 64,
        ;
    }
}

/// The empty set: no thread is parked in a zero mask.
pub proof fn lemma_no_bits_in_zero()
    ensures
        forall|t: u64| !has_bit(0u64, t),
{
    assert forall|t: u64| !has_bit(0u64, t) by {
        assert((0u64 >> t) & 1u64 != 1u64) by (bit_vector);
    }
}

/// A mask with a set bit is non-zero.
pub proof fn lemma_has_bit_nonzero(mask: u64, t: u64)
    requires
        has_bit(mask, t),
    ensures
        mask != 0,
{
    assert(mask != 0) by (bit_vector)
        requires
            (mask >> t) & 1u64 == 1u64,
    ;
}

/// A mask equal to its own suffix from `i` shifted back up has no bit below
/// `i`.
pub proof fn lemma_low_bits_clear(mask: u64, i: u64)
    requires
        mask == (mask >> i) << i,
    ensures
        forall|t: u64| t < i ==> !has_bit(mask, t),
{
    assert forall|t: u64| t < i implies !has_bit(mask, t) by {
        assert(!has_bit(mask, t)) by (bit_vector)
            requires
                mask == (mask >> i) << i,
                t < i,
        ;
    }
}

} // verus!
