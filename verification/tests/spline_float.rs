//! Exercises the library with a floating-point scalar, the way the
//! interactive front end drives it.

use eta3_spline::eta_3;
use eta3_spline::Curve;
use eta3_spline::EtaParam;
use eta3_spline::MotionState;
use eta3_spline::Scalar;

#[derive(Clone, Copy, PartialEq, Debug)]
struct Real(f64);

impl Scalar for Real {
    fn zero_spec() -> Real {
        Real(0.0)
    }

    fn one_spec() -> Real {
        Real(1.0)
    }

    fn add_spec(a: Real, b: Real) -> Real {
        Real(a.0 + b.0)
    }

    fn sub_spec(a: Real, b: Real) -> Real {
        Real(a.0 - b.0)
    }

    fn mul_spec(a: Real, b: Real) -> Real {
        Real(a.0 * b.0)
    }

    fn div_spec(a: Real, b: Real) -> Real {
        Real(a.0 / b.0)
    }

    fn neg_spec(a: Real) -> Real {
        Real(-a.0)
    }

    fn from_usize_spec(n: usize) -> Real {
        Real(n as f64)
    }

    fn lt_spec(a: Real, b: Real) -> bool {
        a.0 < b.0
    }

    fn lemma_add_zero(_a: Real) {}

    fn lemma_sub_zero(_a: Real) {}

    fn lemma_mul_zero(_a: Real) {}

    fn lemma_mul_one(_a: Real) {}

    fn lemma_from_usize_nonzero(_n: usize) {}

    fn zero() -> Real {
        Real(0.0)
    }

    fn one() -> Real {
        Real(1.0)
    }

    fn add(self, other: Real) -> Real {
        Real(self.0 + other.0)
    }

    fn sub(self, other: Real) -> Real {
        Real(self.0 - other.0)
    }

    fn mul(self, other: Real) -> Real {
        Real(self.0 * other.0)
    }

    fn div(self, other: Real) -> Real {
        Real(self.0 / other.0)
    }

    fn neg(self) -> Real {
        Real(-self.0)
    }

    fn from_usize(n: usize) -> Real {
        Real(n as f64)
    }

    fn lt(self, other: Real) -> bool {
        self.0 < other.0
    }
}

fn fit(
    start: (f64, f64, f64, f64, f64),
    end: (f64, f64, f64, f64, f64),
    eta: (f64, f64, f64, f64, f64, f64),
) -> Curve<Real> {
    let s = MotionState {
        x: Real(start.0),
        y: Real(start.1),
        t: Real(start.2),
        k: Real(start.3),
        dk: Real(start.4),
    };
    let e = MotionState {
        x: Real(end.0),
        y: Real(end.1),
        t: Real(end.2),
        k: Real(end.3),
        dk: Real(end.4),
    };
    let eta = EtaParam::new(
        Real(eta.0),
        Real(eta.1),
        Real(eta.2),
        Real(eta.3),
        Real(eta.4),
        Real(eta.5),
    )
    .unwrap();
    eta_3(
        &s,
        &e,
        &eta,
        Real(start.2.cos()),
        Real(start.2.sin()),
        Real(end.2.cos()),
        Real(end.2.sin()),
    )
}

#[test]
fn test() {
    let curve = fit(
        (0., 0., 0., 0., 0.),
        (10., 5., 3.14, 0., 0.),
        (10., 5., 0., 0., 0., 0.),
    );
    let mut wtr = csv::Writer::from_path("/tmp/test_out.csv").unwrap();
    wtr.write_record(&["x", "y"]).unwrap();
    let pts = curve.render(100);
    pts.iter().for_each(|p| wtr.serialize((p.0 .0, p.1 .0)).unwrap());
    assert_eq!(pts.len(), 100);
}

#[test]
fn known_scenario() {
    let curve = fit(
        (0., 0., 0., 0., 0.),
        (10., 5., 3.14, 0., 0.),
        (10., 5., 0., 0., 0., 0.),
    );
    let pts = curve.render(100);
    assert_eq!(pts.len(), 100);
    assert_eq!(pts[0].0 .0, 0.0);
    assert_eq!(pts[0].1 .0, 0.0);
    let last = pts[99];
    let dx = last.0 .0 - 10.0;
    let dy = last.1 .0 - 5.0;
    assert!((dx * dx + dy * dy).sqrt() < 0.2);
    let at_one = curve.eval(Real(1.0));
    assert!((at_one.0 .0 - 10.0).abs() < 1e-6);
    assert!((at_one.1 .0 - 5.0).abs() < 1e-6);
}

#[test]
fn boundaries_hit_both_poses() {
    let curve = fit(
        (-2.5, 4.0, 0.3, 0.1, -0.2),
        (6.0, -1.5, 2.0, -0.4, 0.05),
        (3.0, 7.0, 1.0, -2.0, 0.5, -0.5),
    );
    let at_zero = curve.eval(Real(0.0));
    assert_eq!(at_zero.0 .0, -2.5);
    assert_eq!(at_zero.1 .0, 4.0);
    let at_one = curve.eval(Real(1.0));
    assert!((at_one.0 .0 - 6.0).abs() < 1e-6);
    assert!((at_one.1 .0 - -1.5).abs() < 1e-6);
}

#[test]
fn render_excludes_parameter_one() {
    let curve = fit(
        (0., 0., 0., 0., 0.),
        (1., 1., 0.5, 0., 0.),
        (2., 2., 0., 0., 0., 0.),
    );
    let pts = curve.render(4);
    assert_eq!(pts.len(), 4);
    assert_eq!(pts[0], curve.eval(Real(0.0)));
    assert_eq!(pts[1], curve.eval(Real(0.25)));
    assert_eq!(pts[2], curve.eval(Real(0.5)));
    assert_eq!(pts[3], curve.eval(Real(0.75)));
    let single = curve.render(1);
    assert_eq!(single.len(), 1);
    assert_eq!(single[0], curve.eval(Real(0.0)));
}
