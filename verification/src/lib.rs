//! Eta-3 splines: smooth 2D motion-planning curves connecting two oriented
//! poses, each given by position, heading, curvature, and curvature rate.
//!
//! The curve representation (a polynomial per axis) is generic over an
//! abstract scalar capability, so the algebra is verified once for every
//! scalar; a front end supplies a concrete floating-point scalar.

pub mod curve;
pub mod polynomial;
pub mod scalar;
pub mod spline;
pub mod state;

pub use curve::Curve;
pub use polynomial::Polynomial;
pub use scalar::Scalar;
pub use spline::eta_3;
pub use state::EtaParam;
pub use state::EtaParamError;
pub use state::MotionState;
pub use state::Msg;
