use vstd::prelude::*;

use crate::accumulator::sat_add;

verus! {

/// The ordered, zero-valued, saturating-addable unsigned-integer family the
/// tick engine is parameterized over. Two widths are provided: `u32` for
/// microsecond-scale deadlines and `u64` for long nanosecond-scale ones, so
/// callers can pick the narrowest width that fits.
pub trait Num: Sized + Copy {
    /// The mathematical value held.
    spec fn as_nat(self) -> nat;

    /// The largest value the width can hold; additions saturate here.
    spec fn width_max() -> nat;

    /// Every value of the width lies within its range.
    proof fn lemma_in_range(self)
        ensures
            self.as_nat() <= Self::width_max(),
    ;

    /// The zero of the family.
    fn zero() -> (r: Self)
        ensures
            r.as_nat() == 0,
    ;

    /// Add an elapsed-tick delta, saturating at the width's maximum rather
    /// than wrapping, so accumulated time is never silently lost.
    fn add_u32(self, v: u32) -> (r: Self)
        ensures
            r.as_nat() == sat_add(self.as_nat(), v as nat, Self::width_max()),
    ;

    /// Whether `self` is at least `other`.
    fn at_least(self, other: Self) -> (r: bool)
        ensures
            r == (self.as_nat() >= other.as_nat()),
    ;

    /// Subtract `other`, which must not exceed `self`.
    fn subtract(self, other: Self) -> (r: Self)
        requires
            other.as_nat() <= self.as_nat(),
        ensures
            r.as_nat() == self.as_nat() - other.as_nat(),
    ;
}

impl Num for u32 {
    open spec fn as_nat(self) -> nat {
        self as nat
    }

    open spec fn width_max() -> nat {
        u32::MAX as nat
    }

    proof fn lemma_in_range(self) {
    }

    fn zero() -> u32 {
        0
    }

    fn add_u32(self, v: u32) -> u32 {
        self.saturating_add(v)
    }

    fn at_least(self, other: u32) -> bool {
        self >= other
    }

    fn subtract(self, other: u32) -> u32 {
        self - other
    }
}

impl Num for u64 {
    open spec fn as_nat(self) -> nat {
        self as nat
    }

    open spec fn width_max() -> nat {
        u64::MAX as nat
    }

    proof fn lemma_in_range(self) {
    }

    fn zero() -> u64 {
        0
    }

    fn add_u32(self, v: u32) -> u64 {
        self.saturating_add(v as u64)
    }

    fn at_least(self, other: u64) -> bool {
        self >= other
    }

    fn subtract(self, other: u64) -> u64 {
        self - other
    }
}

} // verus!
