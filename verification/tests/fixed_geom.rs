//! Scalar decoding, saturating arithmetic, and vector geometry.

use vrm_scene::fixed::{fx_add, fx_clamp, fx_div, fx_mul, fx_of_f32_bits, isqrt_u128, FX_ONE};
use vrm_scene::geom::{
    quat_rotate, v3_add, v3_cross, v3_normalize, v3_sub, FxQuat, FxVec3, Trs,
};

#[test]
fn f32_bits_decode_one() {
    assert_eq!(fx_of_f32_bits(1.0f32.to_bits()), 65536);
}

#[test]
fn f32_bits_decode_negative_fraction() {
    // -2.5 is -163840 in Q47.16.
    assert_eq!(fx_of_f32_bits((-2.5f32).to_bits()), -163840);
}

#[test]
fn f32_bits_decode_zero_and_half() {
    assert_eq!(fx_of_f32_bits(0.0f32.to_bits()), 0);
    assert_eq!(fx_of_f32_bits((-0.0f32).to_bits()), 0);
    assert_eq!(fx_of_f32_bits(0.5f32.to_bits()), 32768);
}

#[test]
fn f32_bits_decode_nan_and_infinity() {
    assert_eq!(fx_of_f32_bits(f32::NAN.to_bits()), 0);
    assert_eq!(fx_of_f32_bits(f32::INFINITY.to_bits()), 0x40_0000_0000);
    assert_eq!(fx_of_f32_bits(f32::NEG_INFINITY.to_bits()), -0x40_0000_0000);
}

#[test]
fn f32_bits_decode_truncates_toward_zero() {
    // 1.0000001 truncates to 65536 + a sliver; 2^-24 truncates to zero.
    let tiny = fx_of_f32_bits((2.0f32.powi(-24)).to_bits());
    assert_eq!(tiny, 0);
}

#[test]
fn fixed_multiplication_and_division() {
    assert_eq!(fx_mul(3 * FX_ONE, 2 * FX_ONE), 6 * FX_ONE);
    assert_eq!(fx_mul(-3 * FX_ONE, 2 * FX_ONE), -6 * FX_ONE);
    assert_eq!(fx_div(6 * FX_ONE, 2 * FX_ONE), 3 * FX_ONE);
    assert_eq!(fx_div(FX_ONE, 2 * FX_ONE), FX_ONE / 2);
    // Saturation at the range bound.
    assert_eq!(fx_mul(0x40_0000_0000, 0x40_0000_0000), 0x40_0000_0000);
}

#[test]
fn fixed_addition_saturates() {
    assert_eq!(fx_add(1, 2), 3);
    assert_eq!(fx_add(0x40_0000_0000, 0x40_0000_0000), 0x40_0000_0000);
    assert_eq!(fx_clamp(500_000, 65536), 65536);
    assert_eq!(fx_clamp(-500_000, 65536), -65536);
}

#[test]
fn integer_square_root() {
    assert_eq!(isqrt_u128(0), 0);
    assert_eq!(isqrt_u128(1), 1);
    assert_eq!(isqrt_u128(15), 3);
    assert_eq!(isqrt_u128(16), 4);
    assert_eq!(isqrt_u128(1 << 40), 1 << 20);
}

#[test]
fn vector_cross_and_normalize() {
    let x = FxVec3 { x: FX_ONE, y: 0, z: 0 };
    let y = FxVec3 { x: 0, y: FX_ONE, z: 0 };
    let c = v3_cross(x, y);
    assert_eq!(c, FxVec3 { x: 0, y: 0, z: FX_ONE });
    let n = v3_normalize(FxVec3 { x: 0, y: 0, z: 3 * FX_ONE }).unwrap();
    assert_eq!(n, FxVec3 { x: 0, y: 0, z: FX_ONE });
    assert!(v3_normalize(FxVec3 { x: 0, y: 0, z: 0 }).is_none());
}

#[test]
fn vector_sums() {
    let a = FxVec3 { x: FX_ONE, y: 2 * FX_ONE, z: -FX_ONE };
    let b = FxVec3 { x: FX_ONE, y: -FX_ONE, z: FX_ONE };
    assert_eq!(v3_add(a, b), FxVec3 { x: 2 * FX_ONE, y: FX_ONE, z: 0 });
    assert_eq!(v3_sub(a, b), FxVec3 { x: 0, y: 3 * FX_ONE, z: -2 * FX_ONE });
}

#[test]
fn quaternion_identity_rotation() {
    let v = FxVec3 { x: 3 * FX_ONE, y: -2 * FX_ONE, z: FX_ONE };
    assert_eq!(quat_rotate(FxQuat::identity(), v), v);
}

#[test]
fn transform_applies_translation() {
    let mut t = Trs::identity();
    t.translation = FxVec3 { x: 0, y: FX_ONE, z: 0 };
    let p = FxVec3 { x: 0, y: 0, z: -FX_ONE };
    assert_eq!(t.apply_point(p), FxVec3 { x: 0, y: FX_ONE, z: -FX_ONE });
}
