//! Wraparound-safe comparison over the 16-bit cyclic counter space.
//!
//! Input counters wrap from `u16::MAX` back to 0, so counters are ordered
//! cyclically: `a` counts as greater than `b` when the forward distance from
//! `b` to `a` is at most half the counter space.

use vstd::prelude::*;

verus! {

/// Half of the 65,536-value counter space, minus one: the largest forward
/// distance at which a counter still counts as sequentially greater.
pub const SEQUENCE_MAX_HALF: u16 = 32766;

/// `a` is cyclically after `b`: either `a` is numerically above `b` by at
/// most half the space, or `b` is numerically above `a` by more than half
/// the space (so `a` has wrapped past zero).
pub open spec fn seq_gt(a: u16, b: u16) -> bool {
    ||| (a > b && a - b <= SEQUENCE_MAX_HALF)
    ||| (b > a && b - a > SEQUENCE_MAX_HALF)
}

/// `seq_gt`, plus the equality case.
pub open spec fn seq_ge(a: u16, b: u16) -> bool {
    a == b || seq_gt(a, b)
}

/// `a` is cyclically before `b`.
pub open spec fn seq_lt(a: u16, b: u16) -> bool {
    ||| (a < b && b - a <= SEQUENCE_MAX_HALF)
    ||| (a > b && a - b > SEQUENCE_MAX_HALF)
}

/// Cyclic ordering of 16-bit counters, safe under wraparound.
pub trait SequenceCmp {
    fn sequentially_greater_than(&self, other: u16) -> bool;

    fn sequentially_greater_than_or_equal_to(&self, other: u16) -> bool;

    fn sequentially_less_than(&self, other: u16) -> bool;
}

impl SequenceCmp for u16 {
    fn sequentially_greater_than(&self, other: u16) -> (r: bool)
        ensures
            r == seq_gt(*self, other),
    {
        let max_half: u16 = (u16::MAX / 2) - 1;
        ((*self > other) && *self - other <= max_half)
            || ((other > *self) && other - *self > max_half)
    }

    fn sequentially_greater_than_or_equal_to(&self, other: u16) -> (r: bool)
        ensures
            r == seq_ge(*self, other),
    {
        let max_half: u16 = (u16::MAX / 2) - 1;
        (*self == other)
            || ((*self > other) && *self - other <= max_half)
            || ((other > *self) && other - *self > max_half)
    }

    fn sequentially_less_than(&self, other: u16) -> (r: bool)
        ensures
            r == seq_lt(*self, other),
    {
        let max_half: u16 = (u16::MAX / 2) - 1;
        ((*self < other) && other - *self <= max_half)
            || ((*self > other) && *self - other > max_half)
    }
}

/// For every pair of counters exactly one of greater / equal / less holds,
/// and being cyclically greater than `b` is the same as `b` being cyclically
/// less.
pub proof fn lemma_sequence_trichotomy(a: u16, b: u16)
    ensures
        seq_gt(a, b) == seq_lt(b, a),
        a == b ==> !seq_gt(a, b) && !seq_lt(a, b),
        a != b ==> (seq_gt(a, b) <==> !seq_lt(a, b)),
{
}

} // verus!
