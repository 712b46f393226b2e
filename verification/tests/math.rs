use feos::fixed::{Fx, SCALE};
use feos::transcend::{exp_fx, ln_fx, pow_fx};

fn fx(num: i64, den: i64) -> Fx {
    Fx::from_ratio(num, den)
}

fn close(a: Fx, expected_m: i64, tol_ulps: i64) -> bool {
    (a.m - expected_m).abs() <= tol_ulps
}

#[test]
fn fixed_point_arithmetic_is_exact() {
    let a = Fx::from_int(3);
    let b = fx(1, 2);
    assert_eq!(a.add(b).m, 3 * SCALE + SCALE / 2);
    assert_eq!(a.mul(b).m, 3 * SCALE / 2);
    assert_eq!(a.div(Fx::from_int(2)).m, 3 * SCALE / 2);
    assert_eq!(a.sub(a).m, 0);
    assert_eq!(Fx::from_int(-3).abs().m, 3 * SCALE);
}

#[test]
fn fixed_point_saturates_instead_of_overflowing() {
    let big = Fx { m: i64::MAX };
    assert_eq!(big.add(Fx::one()).m, i64::MAX);
    assert_eq!(big.mul(big).m, i64::MAX);
    assert_eq!(big.neg().m, -i64::MAX);
    // Division by zero saturates by the dividend's sign.
    assert_eq!(Fx::one().div(Fx::zero()).m, i64::MAX);
    assert_eq!(Fx::one().neg().div(Fx::zero()).m, i64::MIN);
    assert_eq!(Fx::zero().div(Fx::zero()).m, 0);
}

#[test]
fn square_root_is_exact_from_below() {
    let r = Fx::from_int(9).sqrt();
    assert_eq!(r.m, 3 * SCALE);
    let r2 = Fx::from_int(2).sqrt();
    // sqrt(2) = 1.41421356...
    assert!(close(r2, 6074000999, 2), "sqrt(2) = {:?}", r2);
    assert_eq!(Fx::from_int(-4).sqrt().m, 0);
}

#[test]
fn exponential_and_logarithm_reference_values() {
    assert_eq!(exp_fx(Fx::zero()).m, SCALE);
    assert_eq!(ln_fx(Fx::one()).m, 0);
    // e = 2.718281828...
    let e = exp_fx(Fx::one());
    assert!(close(e, 11674931555, 64), "e = {:?}", e);
    // ln 2 = 0.6931471805...
    let l2 = ln_fx(Fx::from_int(2));
    assert!(close(l2, 2977044472, 64), "ln 2 = {:?}", l2);
    // Large negative arguments flush to zero, large positive saturate.
    assert_eq!(exp_fx(Fx::from_int(-100)).m, 0);
    assert_eq!(exp_fx(Fx::from_int(100)).m, i64::MAX);
    // The logarithm of a non-positive value saturates downward.
    assert_eq!(ln_fx(Fx::zero()).m, i64::MIN);
}

#[test]
fn exponential_inverts_logarithm() {
    for &(num, den) in &[(5i64, 2i64), (1, 3), (7, 1), (99, 100)] {
        let x = fx(num, den);
        let y = exp_fx(ln_fx(x));
        assert!((y.m - x.m).abs() <= 2048, "roundtrip of {:?} gave {:?}", x, y);
    }
}

#[test]
fn power_function_reference_values() {
    let r = pow_fx(Fx::from_int(4), fx(1, 2));
    assert!(close(r, 2 * SCALE, 4096), "4^0.5 = {:?}", r);
    let c = pow_fx(Fx::from_int(27), fx(1, 3));
    assert!(close(c, 3 * SCALE, 4096), "27^(1/3) = {:?}", c);
    assert_eq!(pow_fx(Fx::zero(), fx(1, 2)).m, 0);
}
