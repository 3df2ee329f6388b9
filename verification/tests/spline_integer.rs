//! Exercises the library with its exact integer scalar.

use eta3_spline::eta_3;
use eta3_spline::EtaParam;
use eta3_spline::MotionState;
use eta3_spline::Polynomial;

#[test]
fn panic_eta() {
    assert!(EtaParam::new(0i64, -1, -1, 2, 3, 4).is_err());
}

#[test]
fn eta_param_validation() {
    let ok = EtaParam::new(1i64, 2, 3, 4, 5, 6).unwrap();
    assert_eq!(ok.values(), (1, 2, 3, 4, 5, 6));
    match EtaParam::new(-5i64, 3, 0, 0, 0, 0) {
        Ok(_) => panic!("a non-positive eta-1 must be rejected"),
        Err(e) => {
            assert_eq!(e.eta_1, -5);
            assert_eq!(e.eta_2, 3);
        }
    }
    match EtaParam::new(4i64, 0, 0, 0, 0, 0) {
        Ok(_) => panic!("a non-positive eta-2 must be rejected"),
        Err(e) => {
            assert_eq!(e.eta_1, 4);
            assert_eq!(e.eta_2, 0);
        }
    }
}

#[test]
fn zeroed_eta_values() {
    let eta = EtaParam::zeroed(5i64).unwrap();
    assert_eq!(eta.values(), (5, 5, 0, 0, 0, 0));
    assert!(EtaParam::zeroed(0i64).is_err());
    assert!(EtaParam::zeroed(-2i64).is_err());
}

#[test]
fn horner_eval() {
    let p = Polynomial::new(vec![2i64, 0, 3]);
    assert_eq!(p.eval(2), 14);
}

#[test]
fn degenerate_eta_low_coefficients() {
    let eta = EtaParam::zeroed(5i64).unwrap();
    let s = MotionState { x: 0i64, y: 0, t: 0, k: 0, dk: 0 };
    let e = MotionState { x: 0i64, y: 0, t: 0, k: 0, dk: 0 };
    let c = eta_3(&s, &e, &eta, 1, 0, 1, 0);
    let xs = c.x_poly().coefficients();
    let ys = c.y_poly().coefficients();
    assert_eq!(xs.len(), 8);
    assert_eq!(ys.len(), 8);
    assert_eq!(xs[0], 0);
    assert_eq!(ys[0], 0);
    assert_eq!(xs[1], 5);
    assert_eq!(ys[1], 0);
    assert_eq!(xs[2], 0);
    assert_eq!(xs[3], 0);
    assert_eq!(ys[2], 0);
    assert_eq!(ys[3], 0);
}

#[test]
fn eval_at_zero_is_start() {
    let eta = EtaParam::new(3i64, 2, 1, -1, 4, -4).unwrap();
    let s = MotionState { x: 7i64, y: -9, t: 0, k: 2, dk: 1 };
    let e = MotionState { x: -4i64, y: 11, t: 0, k: -3, dk: 5 };
    let c = eta_3(&s, &e, &eta, 1, 0, 1, 0);
    assert_eq!(c.eval(0), (7, -9));
}

#[test]
fn render_point_count() {
    let eta = EtaParam::zeroed(2i64).unwrap();
    let s = MotionState { x: 1i64, y: 2, t: 0, k: 0, dk: 0 };
    let e = MotionState { x: 3i64, y: 4, t: 0, k: 0, dk: 0 };
    let c = eta_3(&s, &e, &eta, 1, 0, 1, 0);
    let pts = c.render(4);
    assert_eq!(pts.len(), 4);
    assert_eq!(pts[0], c.eval(0));
}

#[test]
fn constant_polynomial() {
    let p = Polynomial::new(vec![7i64]);
    assert_eq!(p.eval(0), 7);
    assert_eq!(p.eval(100), 7);
    assert_eq!(p.eval(-3), 7);
}

#[test]
fn horner_negative_argument() {
    let p = Polynomial::new(vec![2i64, 0, 3]);
    assert_eq!(p.eval(-2), 14);
    let q = Polynomial::new(vec![1i64, -1, 0, 2]);
    assert_eq!(q.eval(-3), -50);
}

#[test]
fn smallest_positive_eta_accepted() {
    let eta = EtaParam::new(1i64, 1, 0, 0, 0, 0).unwrap();
    assert_eq!(eta.values(), (1, 1, 0, 0, 0, 0));
}
