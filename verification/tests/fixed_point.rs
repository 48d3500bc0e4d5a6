//! Exact-value checks of the fixed-point scalar and the per-joint force
//! laws (brake symmetry, friction saturation).

use rigid_body::fx::{Fx, SCALE};
use rigid_body::physics::{brake_torque_value, friction_clamp_value};

fn fx(units: i64) -> Fx {
    Fx::from_int(units)
}

#[test]
fn add_and_sub_are_exact() {
    let a = fx(3);
    let b = fx(5);
    assert_eq!(a.add(b).raw, 8 * SCALE);
    assert_eq!(a.sub(b).raw, -2 * SCALE);
}

#[test]
fn mul_truncates_toward_zero() {
    // 1.5 * 1.5 = 2.25
    let three_halves = Fx { raw: SCALE + SCALE / 2 };
    assert_eq!(three_halves.mul(three_halves).raw, 2 * SCALE + SCALE / 4);
    // (-1.5) * 1.5 = -2.25 (sign-symmetric truncation)
    assert_eq!(three_halves.neg().mul(three_halves).raw, -(2 * SCALE + SCALE / 4));
}

#[test]
fn div_by_zero_is_zero() {
    assert_eq!(fx(7).div(Fx { raw: 0 }).raw, 0);
}

#[test]
fn div_is_exact_on_powers_of_two() {
    assert_eq!(fx(7).div(fx(2)).raw, 3 * SCALE + SCALE / 2);
}

#[test]
fn saturation_is_symmetric() {
    let top = Fx { raw: i64::MAX };
    assert_eq!(top.add(top).raw, i64::MAX);
    assert_eq!(top.neg().sub(top).raw, -i64::MAX);
    assert_eq!(top.neg().neg().raw, i64::MAX);
}

#[test]
fn sqrt_is_exact_on_squares() {
    assert_eq!(fx(4).sqrt().raw, 2 * SCALE);
    assert_eq!(fx(9).sqrt().raw, 3 * SCALE);
    assert_eq!(fx(-1).sqrt().raw, 0);
}

#[test]
fn sqrt_is_floor() {
    let two = fx(2).sqrt();
    let v = two.raw as f64 / SCALE as f64;
    assert!((v - 1.41421356).abs() < 2e-5);
}

#[test]
fn sign_of_zero_is_zero() {
    assert_eq!(Fx { raw: 0 }.sign().raw, 0);
    assert_eq!(fx(12).sign().raw, SCALE);
    assert_eq!(fx(-12).sign().raw, -SCALE);
}

#[test]
fn cos_sin_basics() {
    let (c, s) = Fx { raw: 0 }.cos_sin();
    assert_eq!(c.raw, SCALE);
    assert_eq!(s.raw, 0);

    let (c, s) = Fx { raw: rigid_body::fx::HALF_PI_RAW }.cos_sin();
    assert!((c.raw as f64 / SCALE as f64).abs() < 1e-3);
    assert!((s.raw as f64 / SCALE as f64 - 1.0).abs() < 1e-3);

    let angle = Fx { raw: 40000 };
    let (cp, sp) = angle.cos_sin();
    let (cn, sn) = angle.neg().cos_sin();
    assert_eq!(cp.raw, cn.raw);
    assert_eq!(sp.raw, -sn.raw);
    let a = 40000.0 / SCALE as f64;
    assert!((cp.raw as f64 / SCALE as f64 - a.cos()).abs() < 1e-3);
    assert!((sp.raw as f64 / SCALE as f64 - a.sin()).abs() < 1e-3);
}

#[test]
fn brake_torque_opposes_rotation() {
    let full = Fx::one();
    let mt = fx(400);
    // spinning forward: full braking torque against the spin
    assert_eq!(brake_torque_value(full, mt, fx(10)).raw, -400 * SCALE);
    // spinning backward: the torque flips sign exactly
    assert_eq!(brake_torque_value(full, mt, fx(-10)).raw, 400 * SCALE);
    // at rest: no braking torque at all
    assert_eq!(brake_torque_value(full, mt, Fx { raw: 0 }).raw, 0);
}

#[test]
fn brake_torque_is_odd_for_many_speeds() {
    let half = Fx { raw: SCALE / 2 };
    let mt = fx(250);
    for qd_raw in [-500000i64, -65536, -1, 1, 3000, 800000] {
        let qd = Fx { raw: qd_raw };
        let f = brake_torque_value(half, mt, qd);
        let g = brake_torque_value(half, mt, qd.neg());
        assert_eq!(f.raw, -g.raw);
    }
}

#[test]
fn friction_clamp_saturates_at_vertical() {
    let vert = fx(100);
    assert_eq!(friction_clamp_value(fx(5000), vert).raw, 100 * SCALE);
    assert_eq!(friction_clamp_value(fx(-5000), vert).raw, -100 * SCALE);
    assert_eq!(friction_clamp_value(fx(42), vert).raw, 42 * SCALE);
}
