//! A 2D space curve: one polynomial per axis, parameterized on `[0, 1]`.

use crate::polynomial::horner;
use crate::polynomial::Polynomial;
use crate::scalar::Scalar;
use vstd::prelude::*;

verus! {

/// The parameter of the `i`-th of `n` equally spaced samples: `i / n`,
/// written with the scalar's own conversion and division.
pub open spec fn sample_at<T: Scalar>(i: usize, n: usize) -> T {
    T::div_spec(T::from_usize_spec(i), T::from_usize_spec(n))
}

/// A 2D space curve: a polynomial per axis, evaluated over `t` in `[0, 1]`.
/// Evaluation outside that interval is algebraically well defined but
/// carries no design meaning.
pub struct Curve<T> {
    x: Polynomial<T>,
    y: Polynomial<T>,
}

impl<T> View for Curve<T> {
    type V = (Seq<T>, Seq<T>);

    closed spec fn view(&self) -> (Seq<T>, Seq<T>) {
        (self.x@, self.y@)
    }
}

impl<T: Scalar> Curve<T> {
    /// A curve is well formed when both axis polynomials are.
    pub open spec fn wf(&self) -> bool {
        self@.0.len() >= 1 && self@.1.len() >= 1
    }

    /// Pairs the two axis polynomials into a curve.
    pub(crate) fn assemble(x: Polynomial<T>, y: Polynomial<T>) -> (c: Self)
        requires
            x.wf(),
            y.wf(),
        ensures
            c@ == (x@, y@),
            c.wf(),
    {
        Curve { x, y }
    }

    /// The x-axis polynomial.
    pub fn x_poly(&self) -> (p: &Polynomial<T>)
        ensures
            p@ == self@.0,
    {
        &self.x
    }

    /// The y-axis polynomial.
    pub fn y_poly(&self) -> (p: &Polynomial<T>)
        ensures
            p@ == self@.1,
    {
        &self.y
    }

    /// Evaluates the curve at `t`, returning the point as `(x, y)`.
    /// Precise only for `t` in `[0, 1]`.
    pub fn eval(&self, t: T) -> (p: (T, T))
        requires
            self.wf(),
        ensures
            p.0 == horner(self@.0, t),
            p.1 == horner(self@.1, t),
    {
        (self.x.eval(t), self.y.eval(t))
    }

    /// Samples the curve at `num_pts` equal parameter increments: the
    /// `i`-th point sits at parameter `i / num_pts`, for `i` from `0` to
    /// `num_pts - 1`. The parameter one is deliberately never sampled: the
    /// samples cover `t = 0` inclusive up to, but excluding, `t = 1`.
    /// A sample count of zero would force a division by zero and is ruled
    /// out by precondition.
    pub fn render(&self, num_pts: usize) -> (pts: Vec<(T, T)>)
        requires
            self.wf(),
            num_pts >= 1,
        ensures
            pts@.len() == num_pts,
            forall|i: int|
                0 <= i < num_pts ==> #[trigger] pts@[i] == (
                    horner(self@.0, sample_at::<T>(i as usize, num_pts)),
                    horner(self@.1, sample_at::<T>(i as usize, num_pts)),
                ),
    {
        let denom: T = T::from_usize(num_pts);
        let mut pts: Vec<(T, T)> = Vec::new();
        let mut i: usize = 0;
        while i < num_pts
            invariant
                self.wf(),
                num_pts >= 1,
                i <= num_pts,
                denom == T::from_usize_spec(num_pts),
                pts@.len() == i,
                forall|j: int|
                    0 <= j < i ==> #[trigger] pts@[j] == (
                        horner(self@.0, sample_at::<T>(j as usize, num_pts)),
                        horner(self@.1, sample_at::<T>(j as usize, num_pts)),
                    ),
            decreases num_pts - i,
        {
            proof {
                T::lemma_from_usize_nonzero(num_pts);
            }
            let t: T = T::from_usize(i).div(denom);
            let p = self.eval(t);
            pts.push(p);
            i = i + 1;
        }
        pts
    }
}

} // verus!
