//! Single-variable polynomials over an abstract scalar, evaluated by
//! Horner's method.

use crate::scalar::Scalar;
use vstd::prelude::*;

verus! {

/// Horner evaluation of the coefficient sequence `s` at `t`, folding from
/// the highest-index coefficient down: the value is
/// `(((c_n * t + c_(n-1)) * t + ...) * t + c_0)`, written with the scalar's
/// own operations. `s[i]` multiplies `t` to the power `i`; `s` must be
/// non-empty for the value to be meaningful.
pub open spec fn horner<T: Scalar>(s: Seq<T>, t: T) -> T
    decreases s.len(),
{
    if s.len() <= 1 {
        s[0]
    } else {
        T::add_spec(T::mul_spec(horner(s.subrange(1, s.len() as int), t), t), s[0])
    }
}

/// The sum of all coefficients, associated the way Horner evaluation at one
/// associates them: `(c_n + c_(n-1)) + ... + c_0` folded from the top.
pub open spec fn coefficient_sum<T: Scalar>(s: Seq<T>) -> T
    decreases s.len(),
{
    if s.len() <= 1 {
        s[0]
    } else {
        T::add_spec(coefficient_sum(s.subrange(1, s.len() as int)), s[0])
    }
}

/// At parameter zero, Horner evaluation returns the constant coefficient:
/// every higher term is absorbed by a multiplication with zero.
pub proof fn lemma_horner_at_zero<T: Scalar>(s: Seq<T>)
    requires
        s.len() >= 1,
    ensures
        horner(s, T::zero_spec()) == s[0],
{
    if s.len() > 1 {
        T::lemma_mul_zero(horner(s.subrange(1, s.len() as int), T::zero_spec()));
        T::lemma_add_zero(s[0]);
    }
}

/// At parameter one, Horner evaluation returns the sum of all coefficients:
/// every multiplication by one drops away.
pub proof fn lemma_horner_at_one<T: Scalar>(s: Seq<T>)
    requires
        s.len() >= 1,
    ensures
        horner(s, T::one_spec()) == coefficient_sum(s),
    decreases s.len(),
{
    if s.len() > 1 {
        lemma_horner_at_one::<T>(s.subrange(1, s.len() as int));
        T::lemma_mul_one(horner(s.subrange(1, s.len() as int), T::one_spec()));
    }
}

/// A polynomial in one variable: an ordered coefficient sequence, where the
/// coefficient at index `i` multiplies the `i`-th power of the variable.
/// The sequence is stored verbatim; trailing zero coefficients are kept.
pub struct Polynomial<T> {
    coeffs: Vec<T>,
}

impl<T> View for Polynomial<T> {
    type V = Seq<T>;

    closed spec fn view(&self) -> Seq<T> {
        self.coeffs@
    }
}

impl<T: Scalar> Polynomial<T> {
    /// A polynomial is well formed when it has at least one coefficient.
    pub open spec fn wf(&self) -> bool {
        self@.len() >= 1
    }

    /// Stores the coefficient sequence verbatim. The caller must supply at
    /// least one coefficient; an empty sequence is a caller bug, not a
    /// runtime-checked error.
    pub fn new(coeffs: Vec<T>) -> (p: Self)
        requires
            coeffs@.len() >= 1,
        ensures
            p@ == coeffs@,
            p.wf(),
    {
        Polynomial { coeffs }
    }

    /// Evaluates the polynomial at `t` by Horner's method, folding from the
    /// highest-index coefficient to the lowest.
    pub fn eval(&self, t: T) -> (r: T)
        requires
            self.wf(),
        ensures
            r == horner(self@, t),
    {
        let n = self.coeffs.len();
        let mut acc = self.coeffs[n - 1];
        let mut i: usize = n - 1;
        while i > 0
            invariant
                n == self@.len(),
                1 <= n,
                i < n,
                acc == horner(self@.subrange(i as int, n as int), t),
            decreases i,
        {
            i = i - 1;
            acc = acc.mul(t).add(self.coeffs[i]);
            proof {
                assert(self@.subrange(i as int, n as int).subrange(1, (n - i) as int)
                    =~= self@.subrange(i as int + 1, n as int));
            }
        }
        proof {
            assert(self@.subrange(0, n as int) =~= self@);
        }
        acc
    }

    /// The coefficient sequence, lowest power first.
    pub fn coefficients(&self) -> (c: &Vec<T>)
        ensures
            c@ == self@,
    {
        &self.coeffs
    }
}

} // verus!
