//! Composing gaze angles with the resting rotation, and the fixed-point
//! half-angle trigonometry behind it.

use vrm_scene::fixed::FX_ONE;
use vrm_scene::gaze::{fx_cos, fx_sin, gaze_rotation, PI2_FX};
use vrm_scene::geom::{quat_mul, FxQuat};

#[test]
fn neutral_gaze_keeps_the_resting_rotation() {
    // Zero yaw and pitch compose to the identity, so the offset survives
    // exactly.
    let offset = FxQuat { x: 1000, y: -2000, z: 300, w: 65000 };
    assert_eq!(gaze_rotation(0, 0, offset), offset);
    assert_eq!(gaze_rotation(0, 0, FxQuat::identity()), FxQuat::identity());
}

#[test]
fn half_angle_trigonometry() {
    assert_eq!(fx_sin(0), 0);
    assert_eq!(fx_cos(0), FX_ONE);
    // sin is odd, cos is even.
    let a = PI2_FX / 3;
    assert_eq!(fx_sin(-a), -fx_sin(a));
    assert_eq!(fx_cos(-a), fx_cos(a));
    // At a right angle the polynomial stays close to 1 and 0.
    let s = fx_sin(PI2_FX);
    let c = fx_cos(PI2_FX);
    assert!((s - FX_ONE).abs() < FX_ONE / 100, "sin(pi/2) was {}", s);
    assert!(c.abs() < FX_ONE / 25, "cos(pi/2) was {}", c);
}

#[test]
fn quaternion_product_identity_laws() {
    let id = FxQuat::identity();
    let q = FxQuat { x: 1111, y: 0, z: -50, w: 65321 };
    assert_eq!(quat_mul(id, q), q);
    assert_eq!(quat_mul(q, id), q);
}

#[test]
fn yaw_rotation_is_about_y() {
    // A pure yaw with an identity offset gives a quaternion with only the
    // y and w components set.
    let r = gaze_rotation(PI2_FX, 0, FxQuat::identity());
    assert_eq!(r.x, 0);
    assert_eq!(r.z, 0);
    assert!(r.y > 0);
    assert!(r.w > 0);
    // A pure pitch uses only x and w.
    let p = gaze_rotation(0, PI2_FX, FxQuat::identity());
    assert_eq!(p.y, 0);
    assert_eq!(p.z, 0);
    assert!(p.x > 0);
}
