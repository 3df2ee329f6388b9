//! The closed-form eta-3 coefficient fitting: a degree-7 polynomial per
//! axis whose value, heading, curvature, and curvature rate match the two
//! boundary poses, with six free shape parameters redistributing the
//! curve's internal energy.
//!
//! Every coefficient is a fixed algebraic formula in the two poses, the
//! eta vector, and the sines and cosines of the two headings. The formulas
//! are stated here as specification functions over the abstract scalar's
//! operations, and `eta_3` is proved to produce exactly them.

use crate::curve::Curve;
use crate::polynomial::coefficient_sum;
use crate::polynomial::horner;
use crate::polynomial::lemma_horner_at_one;
use crate::polynomial::lemma_horner_at_zero;
use crate::polynomial::Polynomial;
use crate::scalar::Scalar;
use crate::state::EtaParam;
use crate::state::MotionState;
use vstd::prelude::*;

verus! {

/// The scalar's addition, written applicatively for formula trees.
pub open spec fn plus<T: Scalar>(a: T, b: T) -> T {
    T::add_spec(a, b)
}

/// The scalar's subtraction, written applicatively for formula trees.
pub open spec fn minus<T: Scalar>(a: T, b: T) -> T {
    T::sub_spec(a, b)
}

/// The scalar's multiplication, written applicatively for formula trees.
pub open spec fn times<T: Scalar>(a: T, b: T) -> T {
    T::mul_spec(a, b)
}

/// The square of a scalar.
pub open spec fn sqr<T: Scalar>(a: T) -> T {
    times(a, a)
}

/// The cube of a scalar, associated as the square times the base.
pub open spec fn cubed<T: Scalar>(a: T) -> T {
    times(times(a, a), a)
}

/// The scalar holding the integer prefactor `n`.
pub open spec fn count<T: Scalar>(n: usize) -> T {
    T::from_usize_spec(n)
}

/// The scalar holding the rational prefactor `p / q`.
pub open spec fn fraction<T: Scalar>(p: usize, q: usize) -> T {
    T::div_spec(count::<T>(p), count::<T>(q))
}

/// The scalar holding the negated integer prefactor `-n`.
pub open spec fn minus_count<T: Scalar>(n: usize) -> T {
    T::neg_spec(count::<T>(n))
}

/// The cubic curvature bracket of the start side:
/// `eta1^3 * dk + 3 * eta1 * eta3 * k`.
pub open spec fn start_curve_3<T: Scalar>(eta: EtaParam<T>, k: T, dk: T) -> T {
    plus(times(cubed(eta@.0), dk), times(times(times(count::<T>(3), eta@.0), eta@.2), k))
}

/// The quartic shape bracket of the start side:
/// `20 * eta1 + 5 * eta3 + 2/3 * eta5`.
pub open spec fn start_shape_4<T: Scalar>(eta: EtaParam<T>) -> T {
    plus(
        plus(times(count::<T>(20), eta@.0), times(count::<T>(5), eta@.2)),
        times(fraction::<T>(2, 3), eta@.4),
    )
}

/// The quartic curvature bracket of the start side:
/// `5 * eta1^2 * k + 2/3 * eta1^3 * dk + 2 * eta1 * eta3 * k`.
pub open spec fn start_curve_4<T: Scalar>(eta: EtaParam<T>, k: T, dk: T) -> T {
    plus(
        plus(
            times(times(count::<T>(5), sqr(eta@.0)), k),
            times(times(fraction::<T>(2, 3), cubed(eta@.0)), dk),
        ),
        times(times(times(count::<T>(2), eta@.0), eta@.2), k),
    )
}

/// The quartic shape bracket of the end side:
/// `15 * eta2 - 5/2 * eta4 + 1/6 * eta6`.
pub open spec fn end_shape_4<T: Scalar>(eta: EtaParam<T>) -> T {
    plus(
        minus(times(count::<T>(15), eta@.1), times(fraction::<T>(5, 2), eta@.3)),
        times(fraction::<T>(1, 6), eta@.5),
    )
}

/// The quartic curvature bracket of the end side:
/// `5/2 * eta2^2 * k - 1/6 * eta2^3 * dk - 1/2 * eta2 * eta4 * k`.
pub open spec fn end_curve_4<T: Scalar>(eta: EtaParam<T>, k: T, dk: T) -> T {
    minus(
        minus(
            times(times(fraction::<T>(5, 2), sqr(eta@.1)), k),
            times(times(fraction::<T>(1, 6), cubed(eta@.1)), dk),
        ),
        times(times(times(fraction::<T>(1, 2), eta@.1), eta@.3), k),
    )
}

/// The quintic shape bracket of the start side:
/// `45 * eta1 + 10 * eta3 + eta5`.
pub open spec fn start_shape_5<T: Scalar>(eta: EtaParam<T>) -> T {
    plus(plus(times(count::<T>(45), eta@.0), times(count::<T>(10), eta@.2)), eta@.4)
}

/// The quintic curvature bracket of the start side:
/// `10 * eta1^2 * k + eta1^3 * dk + 3 * eta1 * eta3 * k`.
pub open spec fn start_curve_5<T: Scalar>(eta: EtaParam<T>, k: T, dk: T) -> T {
    plus(
        plus(times(times(count::<T>(10), sqr(eta@.0)), k), times(cubed(eta@.0), dk)),
        times(times(times(count::<T>(3), eta@.0), eta@.2), k),
    )
}

/// The quintic shape bracket of the end side:
/// `39 * eta2 - 7 * eta4 + 1/2 * eta6`.
pub open spec fn end_shape_5<T: Scalar>(eta: EtaParam<T>) -> T {
    plus(
        minus(times(count::<T>(39), eta@.1), times(count::<T>(7), eta@.3)),
        times(fraction::<T>(1, 2), eta@.5),
    )
}

/// The quintic curvature bracket of the end side:
/// `7 * eta2^2 * k - 1/2 * eta2^3 * dk - 3/2 * eta2 * eta4 * k`.
pub open spec fn end_curve_5<T: Scalar>(eta: EtaParam<T>, k: T, dk: T) -> T {
    minus(
        minus(
            times(times(count::<T>(7), sqr(eta@.1)), k),
            times(times(fraction::<T>(1, 2), cubed(eta@.1)), dk),
        ),
        times(times(times(fraction::<T>(3, 2), eta@.1), eta@.3), k),
    )
}

/// The sextic shape bracket of the start side:
/// `36 * eta1 + 15/2 * eta3 + 2/3 * eta5`.
pub open spec fn start_shape_6<T: Scalar>(eta: EtaParam<T>) -> T {
    plus(
        plus(times(count::<T>(36), eta@.0), times(fraction::<T>(15, 2), eta@.2)),
        times(fraction::<T>(2, 3), eta@.4),
    )
}

/// The sextic curvature bracket of the start side:
/// `15/2 * eta1^2 * k + 2/3 * eta1^3 * dk + 2 * eta1 * eta3 * k`.
pub open spec fn start_curve_6<T: Scalar>(eta: EtaParam<T>, k: T, dk: T) -> T {
    plus(
        plus(
            times(times(fraction::<T>(15, 2), sqr(eta@.0)), k),
            times(times(fraction::<T>(2, 3), cubed(eta@.0)), dk),
        ),
        times(times(times(count::<T>(2), eta@.0), eta@.2), k),
    )
}

/// The sextic shape bracket of the end side:
/// `34 * eta2 - 13/2 * eta4 + 1/2 * eta6`.
pub open spec fn end_shape_6<T: Scalar>(eta: EtaParam<T>) -> T {
    plus(
        minus(times(count::<T>(34), eta@.1), times(fraction::<T>(13, 2), eta@.3)),
        times(fraction::<T>(1, 2), eta@.5),
    )
}

/// The sextic curvature bracket of the end side:
/// `13/2 * eta2^2 * k - 1/2 * eta2^3 * dk - 3/2 * eta2 * eta4 * k`.
pub open spec fn end_curve_6<T: Scalar>(eta: EtaParam<T>, k: T, dk: T) -> T {
    minus(
        minus(
            times(times(fraction::<T>(13, 2), sqr(eta@.1)), k),
            times(times(fraction::<T>(1, 2), cubed(eta@.1)), dk),
        ),
        times(times(times(fraction::<T>(3, 2), eta@.1), eta@.3), k),
    )
}

/// The septic shape bracket of the start side:
/// `10 * eta1 + 2 * eta3 + 1/6 * eta5`.
pub open spec fn start_shape_7<T: Scalar>(eta: EtaParam<T>) -> T {
    plus(
        plus(times(count::<T>(10), eta@.0), times(count::<T>(2), eta@.2)),
        times(fraction::<T>(1, 6), eta@.4),
    )
}

/// The septic curvature bracket of the start side:
/// `2 * eta1^2 * k + 1/6 * eta1^3 * dk + 1/2 * eta1 * eta3 * k`.
pub open spec fn start_curve_7<T: Scalar>(eta: EtaParam<T>, k: T, dk: T) -> T {
    plus(
        plus(
            times(times(count::<T>(2), sqr(eta@.0)), k),
            times(times(fraction::<T>(1, 6), cubed(eta@.0)), dk),
        ),
        times(times(times(fraction::<T>(1, 2), eta@.0), eta@.2), k),
    )
}

/// The septic shape bracket of the end side:
/// `10 * eta2 - 2 * eta4 + 1/6 * eta6`.
pub open spec fn end_shape_7<T: Scalar>(eta: EtaParam<T>) -> T {
    plus(
        minus(times(count::<T>(10), eta@.1), times(count::<T>(2), eta@.3)),
        times(fraction::<T>(1, 6), eta@.5),
    )
}

/// The septic curvature bracket of the end side:
/// `2 * eta2^2 * k - 1/6 * eta2^3 * dk - 1/2 * eta2 * eta4 * k`.
pub open spec fn end_curve_7<T: Scalar>(eta: EtaParam<T>, k: T, dk: T) -> T {
    minus(
        minus(
            times(times(count::<T>(2), sqr(eta@.1)), k),
            times(times(fraction::<T>(1, 6), cubed(eta@.1)), dk),
        ),
        times(times(times(fraction::<T>(1, 2), eta@.1), eta@.3), k),
    )
}

/// The eight x-axis coefficients of the fitted spline, lowest power first.
/// `ca`, `sa`, `cb`, `sb` are the cosine and sine of the start and end
/// headings.
pub open spec fn x_coeffs<T: Scalar>(
    start: MotionState<T>,
    end: MotionState<T>,
    eta: EtaParam<T>,
    ca: T,
    sa: T,
    cb: T,
    sb: T,
) -> Seq<T> {
    let dx = minus(end.x, start.x);
    seq![
        start.x,
        times(eta@.0, ca),
        minus(
            times(times(fraction::<T>(1, 2), eta@.2), ca),
            times(times(times(fraction::<T>(1, 2), sqr(eta@.0)), start.k), sa),
        ),
        minus(
            times(times(fraction::<T>(1, 6), eta@.4), ca),
            times(times(fraction::<T>(1, 6), start_curve_3(eta, start.k, start.dk)), sa),
        ),
        minus(
            minus(
                plus(
                    minus(times(count::<T>(35), dx), times(start_shape_4(eta), ca)),
                    times(start_curve_4(eta, start.k, start.dk), sa),
                ),
                times(end_shape_4(eta), cb),
            ),
            times(end_curve_4(eta, end.k, end.dk), sb),
        ),
        plus(
            plus(
                minus(
                    plus(times(minus_count::<T>(84), dx), times(start_shape_5(eta), ca)),
                    times(start_curve_5(eta, start.k, start.dk), sa),
                ),
                times(end_shape_5(eta), cb),
            ),
            times(end_curve_5(eta, end.k, end.dk), sb),
        ),
        minus(
            minus(
                plus(
                    minus(times(count::<T>(70), dx), times(start_shape_6(eta), ca)),
                    times(start_curve_6(eta, start.k, start.dk), sa),
                ),
                times(end_shape_6(eta), cb),
            ),
            times(end_curve_6(eta, end.k, end.dk), sb),
        ),
        plus(
            plus(
                minus(
                    plus(times(minus_count::<T>(20), dx), times(start_shape_7(eta), ca)),
                    times(start_curve_7(eta, start.k, start.dk), sa),
                ),
                times(end_shape_7(eta), cb),
            ),
            times(end_curve_7(eta, end.k, end.dk), sb),
        ),
    ]
}

/// The eight y-axis coefficients: the same numeric prefactors as the
/// x-axis, with cosine and sine of both headings swapped and the sign of
/// every bracket flipped that, after the swap, multiplies what was the
/// sine-bearing factor.
pub open spec fn y_coeffs<T: Scalar>(
    start: MotionState<T>,
    end: MotionState<T>,
    eta: EtaParam<T>,
    ca: T,
    sa: T,
    cb: T,
    sb: T,
) -> Seq<T> {
    let dy = minus(end.y, start.y);
    seq![
        start.y,
        times(eta@.0, sa),
        plus(
            times(times(fraction::<T>(1, 2), eta@.2), sa),
            times(times(times(fraction::<T>(1, 2), sqr(eta@.0)), start.k), ca),
        ),
        plus(
            times(times(fraction::<T>(1, 6), eta@.4), sa),
            times(times(fraction::<T>(1, 6), start_curve_3(eta, start.k, start.dk)), ca),
        ),
        plus(
            minus(
                minus(
                    minus(times(count::<T>(35), dy), times(start_shape_4(eta), sa)),
                    times(start_curve_4(eta, start.k, start.dk), ca),
                ),
                times(end_shape_4(eta), sb),
            ),
            times(end_curve_4(eta, end.k, end.dk), cb),
        ),
        minus(
            plus(
                plus(
                    plus(times(minus_count::<T>(84), dy), times(start_shape_5(eta), sa)),
                    times(start_curve_5(eta, start.k, start.dk), ca),
                ),
                times(end_shape_5(eta), sb),
            ),
            times(end_curve_5(eta, end.k, end.dk), cb),
        ),
        plus(
            minus(
                minus(
                    minus(times(count::<T>(70), dy), times(start_shape_6(eta), sa)),
                    times(start_curve_6(eta, start.k, start.dk), ca),
                ),
                times(end_shape_6(eta), sb),
            ),
            times(end_curve_6(eta, end.k, end.dk), cb),
        ),
        minus(
            plus(
                plus(
                    plus(times(minus_count::<T>(20), dy), times(start_shape_7(eta), sa)),
                    times(start_curve_7(eta, start.k, start.dk), ca),
                ),
                times(end_shape_7(eta), sb),
            ),
            times(end_curve_7(eta, end.k, end.dk), cb),
        ),
    ]
}

/// The rational prefactor `p / q` as an executable scalar.
fn scalar_fraction<T: Scalar>(p: usize, q: usize) -> (r: T)
    requires
        q >= 1,
    ensures
        r == fraction::<T>(p, q),
{
    let d: T = T::from_usize(q);
    proof {
        T::lemma_from_usize_nonzero(q);
    }
    T::from_usize(p).div(d)
}

/// Fits an eta-3 spline between `start` and `end` using the shape vector
/// `eta`. `ca` and `sa` are the cosine and sine of the start heading,
/// `cb` and `sb` those of the end heading; the caller supplies them since
/// trigonometric functions are not part of the abstract scalar. The
/// result's coefficients are exactly the closed-form formulas: sixteen
/// independent assignments with no branching and no failure mode.
pub fn eta_3<T: Scalar>(
    start: &MotionState<T>,
    end: &MotionState<T>,
    eta: &EtaParam<T>,
    ca: T,
    sa: T,
    cb: T,
    sb: T,
) -> (c: Curve<T>)
    ensures
        c.wf(),
        c@.0 =~= x_coeffs(*start, *end, *eta, ca, sa, cb, sb),
        c@.1 =~= y_coeffs(*start, *end, *eta, ca, sa, cb, sb),
{
    let f1_2: T = scalar_fraction(1, 2);
    let f1_6: T = scalar_fraction(1, 6);
    let f2_3: T = scalar_fraction(2, 3);
    let f5_2: T = scalar_fraction(5, 2);
    let f3_2: T = scalar_fraction(3, 2);
    let f15_2: T = scalar_fraction(15, 2);
    let f13_2: T = scalar_fraction(13, 2);
    let n2: T = T::from_usize(2);
    let n3: T = T::from_usize(3);
    let n5: T = T::from_usize(5);
    let n7: T = T::from_usize(7);
    let n10: T = T::from_usize(10);
    let n15: T = T::from_usize(15);
    let n34: T = T::from_usize(34);
    let n35: T = T::from_usize(35);
    let n36: T = T::from_usize(36);
    let n39: T = T::from_usize(39);
    let n45: T = T::from_usize(45);
    let n70: T = T::from_usize(70);
    let m20: T = T::from_usize(20).neg();
    let m84: T = T::from_usize(84).neg();
    let e1 = eta.0;
    let e2 = eta.1;
    let e3 = eta.2;
    let e4 = eta.3;
    let e5 = eta.4;
    let e6 = eta.5;
    let k0 = start.k;
    let dk0 = start.dk;
    let k1 = end.k;
    let dk1 = end.dk;
    let sq1 = e1.mul(e1);
    let cu1 = e1.mul(e1).mul(e1);
    let sq2 = e2.mul(e2);
    let cu2 = e2.mul(e2).mul(e2);
    let dx = end.x.sub(start.x);
    let dy = end.y.sub(start.y);

    // constant terms (power 0)
    let x0 = start.x;
    let y0 = start.y;
    // linear terms (power 1)
    let x1 = e1.mul(ca);
    let y1 = e1.mul(sa);
    // quadratic terms (power 2)
    let x2 = f1_2.mul(e3).mul(ca).sub(f1_2.mul(sq1).mul(k0).mul(sa));
    let y2 = f1_2.mul(e3).mul(sa).add(f1_2.mul(sq1).mul(k0).mul(ca));
    // cubic terms (power 3)
    let u3 = cu1.mul(dk0).add(n3.mul(e1).mul(e3).mul(k0));
    let x3 = f1_6.mul(e5).mul(ca).sub(f1_6.mul(u3).mul(sa));
    let y3 = f1_6.mul(e5).mul(sa).add(f1_6.mul(u3).mul(ca));
    // quartic terms (power 4)
    let p4 = T::from_usize(20).mul(e1).add(n5.mul(e3)).add(f2_3.mul(e5));
    let q4 = n5.mul(sq1).mul(k0).add(f2_3.mul(cu1).mul(dk0)).add(n2.mul(e1).mul(e3).mul(k0));
    let r4 = n15.mul(e2).sub(f5_2.mul(e4)).add(f1_6.mul(e6));
    let s4 = f5_2.mul(sq2).mul(k1).sub(f1_6.mul(cu2).mul(dk1)).sub(f1_2.mul(e2).mul(e4).mul(k1));
    let x4 = n35.mul(dx).sub(p4.mul(ca)).add(q4.mul(sa)).sub(r4.mul(cb)).sub(s4.mul(sb));
    let y4 = n35.mul(dy).sub(p4.mul(sa)).sub(q4.mul(ca)).sub(r4.mul(sb)).add(s4.mul(cb));
    // quintic terms (power 5)
    let p5 = n45.mul(e1).add(n10.mul(e3)).add(e5);
    let q5 = n10.mul(sq1).mul(k0).add(cu1.mul(dk0)).add(n3.mul(e1).mul(e3).mul(k0));
    let r5 = n39.mul(e2).sub(n7.mul(e4)).add(f1_2.mul(e6));
    let s5 = n7.mul(sq2).mul(k1).sub(f1_2.mul(cu2).mul(dk1)).sub(f3_2.mul(e2).mul(e4).mul(k1));
    let x5 = m84.mul(dx).add(p5.mul(ca)).sub(q5.mul(sa)).add(r5.mul(cb)).add(s5.mul(sb));
    let y5 = m84.mul(dy).add(p5.mul(sa)).add(q5.mul(ca)).add(r5.mul(sb)).sub(s5.mul(cb));
    // sextic terms (power 6)
    let p6 = n36.mul(e1).add(f15_2.mul(e3)).add(f2_3.mul(e5));
    let q6 = f15_2.mul(sq1).mul(k0).add(f2_3.mul(cu1).mul(dk0)).add(n2.mul(e1).mul(e3).mul(k0));
    let r6 = n34.mul(e2).sub(f13_2.mul(e4)).add(f1_2.mul(e6));
    let s6 = f13_2.mul(sq2).mul(k1).sub(f1_2.mul(cu2).mul(dk1)).sub(f3_2.mul(e2).mul(e4).mul(k1));
    let x6 = n70.mul(dx).sub(p6.mul(ca)).add(q6.mul(sa)).sub(r6.mul(cb)).sub(s6.mul(sb));
    let y6 = n70.mul(dy).sub(p6.mul(sa)).sub(q6.mul(ca)).sub(r6.mul(sb)).add(s6.mul(cb));
    // septic terms (power 7)
    let p7 = n10.mul(e1).add(n2.mul(e3)).add(f1_6.mul(e5));
    let q7 = n2.mul(sq1).mul(k0).add(f1_6.mul(cu1).mul(dk0)).add(f1_2.mul(e1).mul(e3).mul(k0));
    let r7 = n10.mul(e2).sub(n2.mul(e4)).add(f1_6.mul(e6));
    let s7 = n2.mul(sq2).mul(k1).sub(f1_6.mul(cu2).mul(dk1)).sub(f1_2.mul(e2).mul(e4).mul(k1));
    let x7 = m20.mul(dx).add(p7.mul(ca)).sub(q7.mul(sa)).add(r7.mul(cb)).add(s7.mul(sb));
    let y7 = m20.mul(dy).add(p7.mul(sa)).add(q7.mul(ca)).add(r7.mul(sb)).sub(s7.mul(cb));

    let mut xs: Vec<T> = Vec::new();
    xs.push(x0);
    xs.push(x1);
    xs.push(x2);
    xs.push(x3);
    xs.push(x4);
    xs.push(x5);
    xs.push(x6);
    xs.push(x7);
    let mut ys: Vec<T> = Vec::new();
    ys.push(y0);
    ys.push(y1);
    ys.push(y2);
    ys.push(y3);
    ys.push(y4);
    ys.push(y5);
    ys.push(y6);
    ys.push(y7);
    proof {
        assert(xs@ =~= x_coeffs(*start, *end, *eta, ca, sa, cb, sb));
        assert(ys@ =~= y_coeffs(*start, *end, *eta, ca, sa, cb, sb));
    }
    Curve::assemble(Polynomial::new(xs), Polynomial::new(ys))
}

/// Boundary satisfaction at the start: the constant coefficient of each
/// axis is the start position, so Horner evaluation of the fitted
/// coefficients at parameter zero returns exactly the start pose's
/// position, for every pair of poses and every eta vector.
pub proof fn lemma_spline_starts_at_start<T: Scalar>(
    start: MotionState<T>,
    end: MotionState<T>,
    eta: EtaParam<T>,
    ca: T,
    sa: T,
    cb: T,
    sb: T,
)
    ensures
        horner(x_coeffs(start, end, eta, ca, sa, cb, sb), T::zero_spec()) == start.x,
        horner(y_coeffs(start, end, eta, ca, sa, cb, sb), T::zero_spec()) == start.y,
{
    lemma_horner_at_zero::<T>(x_coeffs(start, end, eta, ca, sa, cb, sb));
    lemma_horner_at_zero::<T>(y_coeffs(start, end, eta, ca, sa, cb, sb));
}

/// Boundary behavior at the end, as far as the abstract scalar carries it:
/// Horner evaluation of the fitted coefficients at parameter one is the
/// sum of all eight coefficients of the axis. The construction makes that
/// sum reconstruct the end position when the scalar's arithmetic is exact.
pub proof fn lemma_spline_end_is_coefficient_sum<T: Scalar>(
    start: MotionState<T>,
    end: MotionState<T>,
    eta: EtaParam<T>,
    ca: T,
    sa: T,
    cb: T,
    sb: T,
)
    ensures
        horner(x_coeffs(start, end, eta, ca, sa, cb, sb), T::one_spec()) == coefficient_sum(
            x_coeffs(start, end, eta, ca, sa, cb, sb),
        ),
        horner(y_coeffs(start, end, eta, ca, sa, cb, sb), T::one_spec()) == coefficient_sum(
            y_coeffs(start, end, eta, ca, sa, cb, sb),
        ),
{
    lemma_horner_at_one::<T>(x_coeffs(start, end, eta, ca, sa, cb, sb));
    lemma_horner_at_one::<T>(y_coeffs(start, end, eta, ca, sa, cb, sb));
}

/// Degenerate shape vector: with the higher-order controls `eta3` and
/// `eta5` at zero and a start pose of zero curvature and zero curvature
/// rate, the quadratic and cubic coefficients of both axes vanish — every
/// term of those two formulas carries one of the zeroed values as a
/// factor.
pub proof fn lemma_degenerate_low_coefficients<T: Scalar>(
    start: MotionState<T>,
    end: MotionState<T>,
    eta: EtaParam<T>,
    ca: T,
    sa: T,
    cb: T,
    sb: T,
)
    requires
        eta@.2 == T::zero_spec(),
        eta@.4 == T::zero_spec(),
        start.k == T::zero_spec(),
        start.dk == T::zero_spec(),
    ensures
        x_coeffs(start, end, eta, ca, sa, cb, sb)[2] == T::zero_spec(),
        x_coeffs(start, end, eta, ca, sa, cb, sb)[3] == T::zero_spec(),
        y_coeffs(start, end, eta, ca, sa, cb, sb)[2] == T::zero_spec(),
        y_coeffs(start, end, eta, ca, sa, cb, sb)[3] == T::zero_spec(),
{
    let z = T::zero_spec();
    T::lemma_mul_zero(fraction::<T>(1, 2));
    T::lemma_mul_zero(fraction::<T>(1, 6));
    T::lemma_mul_zero(times(fraction::<T>(1, 2), sqr(eta@.0)));
    T::lemma_mul_zero(cubed(eta@.0));
    T::lemma_mul_zero(times(count::<T>(3), eta@.0));
    T::lemma_mul_zero(ca);
    T::lemma_mul_zero(sa);
    T::lemma_mul_zero(z);
    T::lemma_add_zero(z);
    T::lemma_sub_zero(z);
}

} // verus!
