//! The abstract numeric capability that the curve algebra is generic over.
//!
//! A scalar offers the two identity elements, ring operations, division,
//! an ordering test against other scalars, and a conversion from a sample
//! count. Every operation has a specification-level counterpart, so that
//! contracts can pin down results symbolically, and a small set of proved
//! identity laws that the generic lemmas about curves rely on.

use vstd::prelude::*;

verus! {

/// Numeric capability for curve coefficients and parameters.
///
/// The executable operations are tied to their specification counterparts,
/// and implementors must prove the identity laws below. Division is partial:
/// callers must keep the divisor away from zero, so that no implementation
/// is forced to divide by zero.
pub trait Scalar: Sized + Copy {
    /// The additive identity, at the specification level.
    spec fn zero_spec() -> Self;

    /// The multiplicative identity, at the specification level.
    spec fn one_spec() -> Self;

    /// What `add` returns.
    spec fn add_spec(a: Self, b: Self) -> Self;

    /// What `sub` returns.
    spec fn sub_spec(a: Self, b: Self) -> Self;

    /// What `mul` returns.
    spec fn mul_spec(a: Self, b: Self) -> Self;

    /// What `div` returns.
    spec fn div_spec(a: Self, b: Self) -> Self;

    /// What `neg` returns.
    spec fn neg_spec(a: Self) -> Self;

    /// What `from_usize` returns.
    spec fn from_usize_spec(n: usize) -> Self;

    /// What `lt` returns.
    spec fn lt_spec(a: Self, b: Self) -> bool;

    fn zero() -> (r: Self)
        ensures
            r == Self::zero_spec(),
    ;

    fn one() -> (r: Self)
        ensures
            r == Self::one_spec(),
    ;

    fn add(self, other: Self) -> (r: Self)
        ensures
            r == Self::add_spec(self, other),
    ;

    fn sub(self, other: Self) -> (r: Self)
        ensures
            r == Self::sub_spec(self, other),
    ;

    fn mul(self, other: Self) -> (r: Self)
        ensures
            r == Self::mul_spec(self, other),
    ;

    fn div(self, other: Self) -> (r: Self)
        requires
            other != Self::zero_spec(),
        ensures
            r == Self::div_spec(self, other),
    ;

    fn neg(self) -> (r: Self)
        ensures
            r == Self::neg_spec(self),
    ;

    fn from_usize(n: usize) -> (r: Self)
        ensures
            r == Self::from_usize_spec(n),
    ;

    fn lt(self, other: Self) -> (r: bool)
        ensures
            r == Self::lt_spec(self, other),
    ;

    /// Zero is neutral for addition on either side.
    proof fn lemma_add_zero(a: Self)
        ensures
            Self::add_spec(a, Self::zero_spec()) == a,
            Self::add_spec(Self::zero_spec(), a) == a,
    ;

    /// Subtracting zero changes nothing.
    proof fn lemma_sub_zero(a: Self)
        ensures
            Self::sub_spec(a, Self::zero_spec()) == a,
    ;

    /// Zero absorbs multiplication on either side.
    proof fn lemma_mul_zero(a: Self)
        ensures
            Self::mul_spec(a, Self::zero_spec()) == Self::zero_spec(),
            Self::mul_spec(Self::zero_spec(), a) == Self::zero_spec(),
    ;

    /// One is neutral for multiplication on either side.
    proof fn lemma_mul_one(a: Self)
        ensures
            Self::mul_spec(a, Self::one_spec()) == a,
            Self::mul_spec(Self::one_spec(), a) == a,
    ;

    /// A positive sample count never converts to the zero scalar.
    proof fn lemma_from_usize_nonzero(n: usize)
        requires
            n >= 1,
        ensures
            Self::from_usize_spec(n) != Self::zero_spec(),
    ;
}

/// An exact integer scalar: the ring operations wrap on overflow, division
/// truncates toward zero, and conversion from a count saturates at the
/// largest representable value.
impl Scalar for i64 {
    open spec fn zero_spec() -> i64 {
        0
    }

    open spec fn one_spec() -> i64 {
        1
    }

    open spec fn add_spec(a: i64, b: i64) -> i64 {
        a.wrapping_add(b)
    }

    open spec fn sub_spec(a: i64, b: i64) -> i64 {
        a.wrapping_sub(b)
    }

    open spec fn mul_spec(a: i64, b: i64) -> i64 {
        a.wrapping_mul(b)
    }

    open spec fn div_spec(a: i64, b: i64) -> i64 {
        match a.checked_div(b) {
            Some(q) => q,
            None => a,
        }
    }

    open spec fn neg_spec(a: i64) -> i64 {
        (0i64).wrapping_sub(a)
    }

    open spec fn from_usize_spec(n: usize) -> i64 {
        if n > i64::MAX as usize {
            i64::MAX
        } else {
            n as i64
        }
    }

    open spec fn lt_spec(a: i64, b: i64) -> bool {
        a < b
    }

    fn zero() -> (r: i64) {
        0
    }

    fn one() -> (r: i64) {
        1
    }

    fn add(self, other: i64) -> (r: i64) {
        self.wrapping_add(other)
    }

    fn sub(self, other: i64) -> (r: i64) {
        self.wrapping_sub(other)
    }

    fn mul(self, other: i64) -> (r: i64) {
        self.wrapping_mul(other)
    }

    fn div(self, other: i64) -> (r: i64) {
        match self.checked_div(other) {
            Some(q) => q,
            None => self,
        }
    }

    fn neg(self) -> (r: i64) {
        (0i64).wrapping_sub(self)
    }

    fn from_usize(n: usize) -> (r: i64) {
        if n > i64::MAX as usize {
            i64::MAX
        } else {
            n as i64
        }
    }

    fn lt(self, other: i64) -> (r: bool) {
        self < other
    }

    proof fn lemma_add_zero(a: i64) {
    }

    proof fn lemma_sub_zero(a: i64) {
    }

    proof fn lemma_mul_zero(a: i64) {
    }

    proof fn lemma_mul_one(a: i64) {
        assert(vstd::wrapping::i64_specs::signed_crop(a as int * 1) == a) by {
            assert(a as int * 1 == a as int);
        };
        assert(vstd::wrapping::i64_specs::signed_crop(1 * a as int) == a) by {
            assert(1 * a as int == a as int);
        };
    }

    proof fn lemma_from_usize_nonzero(n: usize) {
    }
}

} // verus!
