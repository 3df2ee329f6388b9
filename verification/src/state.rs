//! Plain pose and shape-parameter values, and the messages of the
//! interactive parameter-tuning front end.

use crate::scalar::Scalar;
use vstd::prelude::*;

verus! {

/// One interpolation state of an eta-3 spline: x position, y position,
/// heading in radians, curvature, and the derivative of curvature.
/// Any scalar values are accepted; the state is a caller-built aggregate
/// with no invariant of its own.
pub struct MotionState<T> {
    pub x: T,
    pub y: T,
    pub t: T,
    pub k: T,
    pub dk: T,
}

/// The validation error of [`EtaParam::new`]: carries both supplied values
/// of the first two shape parameters, of which at least one was not
/// positive.
#[derive(Clone, Copy, Debug)]
pub struct EtaParamError<T> {
    pub eta_1: T,
    pub eta_2: T,
}

/// The six free shape parameters of an eta-3 spline. The first two scale
/// the start-side and end-side tangent and curvature terms and must be
/// positive; the remaining four are higher-order shape controls with no
/// constraint. The invariant is enforced at construction only.
pub struct EtaParam<T>(
    pub(crate) T,
    pub(crate) T,
    pub(crate) T,
    pub(crate) T,
    pub(crate) T,
    pub(crate) T,
);

impl<T> View for EtaParam<T> {
    type V = (T, T, T, T, T, T);

    open(crate) spec fn view(&self) -> (T, T, T, T, T, T) {
        (self.0, self.1, self.2, self.3, self.4, self.5)
    }
}

impl<T: Scalar> EtaParam<T> {
    /// Creates the eta vector with the listed parameters. Fails, carrying
    /// both supplied values, when `a` or `b` is not greater than zero;
    /// otherwise stores the six values unchanged.
    pub fn new(a: T, b: T, c: T, d: T, e: T, f: T) -> (r: Result<Self, EtaParamError<T>>)
        ensures
            r is Ok <==> (T::lt_spec(T::zero_spec(), a) && T::lt_spec(T::zero_spec(), b)),
            r matches Ok(p) ==> p@ == (a, b, c, d, e, f),
            r matches Err(q) ==> q.eta_1 == a && q.eta_2 == b,
    {
        if T::zero().lt(a) && T::zero().lt(b) {
            Ok(EtaParam(a, b, c, d, e, f))
        } else {
            Err(EtaParamError { eta_1: a, eta_2: b })
        }
    }

    /// Creates the eta vector with the first two parameters set to `i` and
    /// the four higher-order controls set to zero.
    pub fn zeroed(i: T) -> (r: Result<Self, EtaParamError<T>>)
        ensures
            r is Ok <==> T::lt_spec(T::zero_spec(), i),
            r matches Ok(p) ==> p@ == (
                i,
                i,
                T::zero_spec(),
                T::zero_spec(),
                T::zero_spec(),
                T::zero_spec(),
            ),
            r matches Err(q) ==> q.eta_1 == i && q.eta_2 == i,
    {
        Self::new(i, i, T::zero(), T::zero(), T::zero(), T::zero())
    }

    /// The six stored shape parameters, in order.
    pub fn values(&self) -> (r: (T, T, T, T, T, T))
        ensures
            r == self@,
    {
        (self.0, self.1, self.2, self.3, self.4, self.5)
    }
}

/// The messages that an interactive parameter-tuning front end sends to its
/// update loop: repaint with the current parameters, or shut down.
#[derive(Clone, Copy, Debug, PartialEq, Eq, Structural)]
pub enum Msg {
    Quit,
    Show,
}

} // verus!
