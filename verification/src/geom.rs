//! Fixed-point vectors, quaternions and local transforms.
//!
//! Every operation saturates to the scalar range, so all functions here are
//! total; the specification functions mirror the executable arithmetic
//! exactly.

use vstd::prelude::*;

use crate::fixed::{
    abs_int, clamp_spec, fx_add, fx_clamp, fx_mul, fx_mul_spec, fx_q16_sat, fx_sub, isqrt_u128,
    sat_spec, sqrt_floor, trunc_div_spec, FX_ONE, FX_RAW_MAX,
};

verus! {

/// A 3-vector of Q47.16 scalars.
#[derive(Clone, Copy, Debug, PartialEq, Eq, Structural)]
pub struct FxVec3 {
    pub x: i64,
    pub y: i64,
    pub z: i64,
}

/// A 4-vector of Q47.16 scalars.
#[derive(Clone, Copy, Debug, PartialEq, Eq, Structural)]
pub struct FxVec4 {
    pub x: i64,
    pub y: i64,
    pub z: i64,
    pub w: i64,
}

/// A quaternion of Q47.16 scalars (x, y, z imaginary, w real).
#[derive(Clone, Copy, Debug, PartialEq, Eq, Structural)]
pub struct FxQuat {
    pub x: i64,
    pub y: i64,
    pub z: i64,
    pub w: i64,
}

/// Every component within the scalar range.
pub open spec fn v3_bounded(v: FxVec3) -> bool {
    &&& abs_int(v.x as int) <= FX_RAW_MAX
    &&& abs_int(v.y as int) <= FX_RAW_MAX
    &&& abs_int(v.z as int) <= FX_RAW_MAX
}

/// Quaternion components clamped to [-2, 2]; unit quaternions always are.
pub open spec fn quat_wf(q: FxQuat) -> bool {
    &&& abs_int(q.x as int) <= 0x2_0000
    &&& abs_int(q.y as int) <= 0x2_0000
    &&& abs_int(q.z as int) <= 0x2_0000
    &&& abs_int(q.w as int) <= 0x2_0000
}

impl FxVec3 {
    /// The zero vector.
    pub fn zero() -> (r: FxVec3)
        ensures
            r == (FxVec3 { x: 0, y: 0, z: 0 }),
    {
        FxVec3 { x: 0, y: 0, z: 0 }
    }
}

impl FxQuat {
    /// The identity rotation.
    pub fn identity() -> (r: FxQuat)
        ensures
            r == (FxQuat { x: 0, y: 0, z: 0, w: FX_ONE as i64 }),
            quat_wf(r),
    {
        FxQuat { x: 0, y: 0, z: 0, w: FX_ONE }
    }

    /// Clamps every component to [-2, 2].
    pub fn clamped(self) -> (r: FxQuat)
        ensures
            r == quat_clamp_spec(self),
            quat_wf(r),
    {
        FxQuat {
            x: fx_clamp(self.x, 0x2_0000),
            y: fx_clamp(self.y, 0x2_0000),
            z: fx_clamp(self.z, 0x2_0000),
            w: fx_clamp(self.w, 0x2_0000),
        }
    }
}

/// Componentwise clamp of a quaternion to [-2, 2].
pub open spec fn quat_clamp_spec(q: FxQuat) -> FxQuat {
    FxQuat {
        x: clamp_spec(q.x as int, 0x2_0000) as i64,
        y: clamp_spec(q.y as int, 0x2_0000) as i64,
        z: clamp_spec(q.z as int, 0x2_0000) as i64,
        w: clamp_spec(q.w as int, 0x2_0000) as i64,
    }
}

/// Componentwise saturating sum.
pub open spec fn v3_add_spec(a: FxVec3, b: FxVec3) -> FxVec3 {
    FxVec3 {
        x: sat_spec(a.x + b.x) as i64,
        y: sat_spec(a.y + b.y) as i64,
        z: sat_spec(a.z + b.z) as i64,
    }
}

/// Componentwise saturating difference.
pub open spec fn v3_sub_spec(a: FxVec3, b: FxVec3) -> FxVec3 {
    FxVec3 {
        x: sat_spec(a.x - b.x) as i64,
        y: sat_spec(a.y - b.y) as i64,
        z: sat_spec(a.z - b.z) as i64,
    }
}

/// Componentwise saturating product.
pub open spec fn v3_mul_spec(a: FxVec3, b: FxVec3) -> FxVec3 {
    FxVec3 {
        x: fx_mul_spec(a.x as int, b.x as int) as i64,
        y: fx_mul_spec(a.y as int, b.y as int) as i64,
        z: fx_mul_spec(a.z as int, b.z as int) as i64,
    }
}

/// One cross-product component: (p*q - r*s) >> 16, saturated.
pub open spec fn cross_term_spec(p: int, q: int, r: int, s: int) -> int {
    sat_spec(trunc_div_spec(p * q - r * s, 65536))
}

/// Saturating fixed-point cross product.
pub open spec fn v3_cross_spec(a: FxVec3, b: FxVec3) -> FxVec3 {
    FxVec3 {
        x: cross_term_spec(a.y as int, b.z as int, a.z as int, b.y as int) as i64,
        y: cross_term_spec(a.z as int, b.x as int, a.x as int, b.z as int) as i64,
        z: cross_term_spec(a.x as int, b.y as int, a.y as int, b.x as int) as i64,
    }
}

/// Squared length in raw units (not rescaled to Q16).
pub open spec fn v3_len2_spec(v: FxVec3) -> int {
    (v.x as int) * (v.x as int) + (v.y as int) * (v.y as int) + (v.z as int) * (v.z as int)
}

/// Unit vector in the direction of `v` (None for the zero vector): each
/// component is divided by the floor square root of the squared length.
pub open spec fn v3_normalize_spec(v: FxVec3) -> Option<FxVec3> {
    let n = sqrt_floor(v3_len2_spec(v) as nat);
    if n == 0 {
        Option::None
    } else {
        Option::Some(
            FxVec3 {
                x: sat_spec(trunc_div_spec((v.x as int) * 65536, n as int)) as i64,
                y: sat_spec(trunc_div_spec((v.y as int) * 65536, n as int)) as i64,
                z: sat_spec(trunc_div_spec((v.z as int) * 65536, n as int)) as i64,
            },
        )
    }
}

/// Componentwise saturating sum.
pub fn v3_add(a: FxVec3, b: FxVec3) -> (r: FxVec3)
    ensures
        r == v3_add_spec(a, b),
        v3_bounded(r),
{
    FxVec3 { x: fx_add(a.x, b.x), y: fx_add(a.y, b.y), z: fx_add(a.z, b.z) }
}

/// Componentwise saturating difference.
pub fn v3_sub(a: FxVec3, b: FxVec3) -> (r: FxVec3)
    ensures
        r == v3_sub_spec(a, b),
        v3_bounded(r),
{
    FxVec3 { x: fx_sub(a.x, b.x), y: fx_sub(a.y, b.y), z: fx_sub(a.z, b.z) }
}

/// Componentwise saturating product.
pub fn v3_mul(a: FxVec3, b: FxVec3) -> (r: FxVec3)
    ensures
        r == v3_mul_spec(a, b),
        v3_bounded(r),
{
    FxVec3 { x: fx_mul(a.x, b.x), y: fx_mul(a.y, b.y), z: fx_mul(a.z, b.z) }
}

/// The product of two in-range scalars stays well inside i128.
proof fn lemma_prod_bound(a: int, b: int)
    requires
        abs_int(a) <= 0x40_0000_0000,
        abs_int(b) <= 0x40_0000_0000,
    ensures
        abs_int(a * b) <= 0x40_0000_0000i128 * 0x40_0000_0000i128,
{
    assert(abs_int(a * b) <= 0x40_0000_0000i128 * 0x40_0000_0000i128) by (nonlinear_arith)
        requires
            abs_int(a) <= 0x40_0000_0000,
            abs_int(b) <= 0x40_0000_0000,
    ;
}

/// Saturating fixed-point cross product.
pub fn v3_cross(a: FxVec3, b: FxVec3) -> (r: FxVec3)
    requires
        v3_bounded(a),
        v3_bounded(b),
    ensures
        r == v3_cross_spec(a, b),
        v3_bounded(r),
{
    proof {
        lemma_prod_bound(a.x as int, b.y as int);
        lemma_prod_bound(a.x as int, b.z as int);
        lemma_prod_bound(a.y as int, b.x as int);
        lemma_prod_bound(a.y as int, b.z as int);
        lemma_prod_bound(a.z as int, b.x as int);
        lemma_prod_bound(a.z as int, b.y as int);
    }
    let x: i64 = fx_q16_sat((a.y as i128) * (b.z as i128) - (a.z as i128) * (b.y as i128));
    let y: i64 = fx_q16_sat((a.z as i128) * (b.x as i128) - (a.x as i128) * (b.z as i128));
    let z: i64 = fx_q16_sat((a.x as i128) * (b.y as i128) - (a.y as i128) * (b.x as i128));
    FxVec3 { x, y, z }
}

/// Squared length in raw units.
pub fn v3_len2(v: FxVec3) -> (r: u128)
    requires
        v3_bounded(v),
    ensures
        r == v3_len2_spec(v),
{
    proof {
        lemma_prod_bound(v.x as int, v.x as int);
        lemma_prod_bound(v.y as int, v.y as int);
        lemma_prod_bound(v.z as int, v.z as int);
        assert((v.x as int) * (v.x as int) >= 0) by (nonlinear_arith);
        assert((v.y as int) * (v.y as int) >= 0) by (nonlinear_arith);
        assert((v.z as int) * (v.z as int) >= 0) by (nonlinear_arith);
    }
    let xx: i128 = (v.x as i128) * (v.x as i128);
    let yy: i128 = (v.y as i128) * (v.y as i128);
    let zz: i128 = (v.z as i128) * (v.z as i128);
    (xx + yy + zz) as u128
}

/// Unit vector in the direction of `v`, or None for the zero vector.
pub fn v3_normalize(v: FxVec3) -> (r: Option<FxVec3>)
    requires
        v3_bounded(v),
    ensures
        r == v3_normalize_spec(v),
        r is Some ==> v3_bounded(r->Some_0),
{
    let len2: u128 = v3_len2(v);
    let nrm: u64 = isqrt_u128(len2);
    if nrm == 0 {
        Option::None
    } else {
        let x: i64 = div_by_norm(v.x, nrm);
        let y: i64 = div_by_norm(v.y, nrm);
        let z: i64 = div_by_norm(v.z, nrm);
        Option::Some(FxVec3 { x, y, z })
    }
}

/// One component of the normalization: c * 65536 / nrm, saturated.
fn div_by_norm(c: i64, nrm: u64) -> (r: i64)
    requires
        abs_int(c as int) <= FX_RAW_MAX,
        nrm > 0,
    ensures
        r == sat_spec(trunc_div_spec((c as int) * 65536, nrm as int)),
        abs_int(r as int) <= FX_RAW_MAX,
{
    let cm: u128 = if c >= 0 {
        c as u128
    } else {
        (-c) as u128
    };
    let q: u128 = cm * 65536 / (nrm as u128);
    proof {
        assert((cm as int) * 65536 / (nrm as int) <= (cm as int) * 65536) by (nonlinear_arith)
            requires
                nrm >= 1,
                cm <= 0x40_0000_0000u128,
        ;
    }
    let m: u64 = if q > 0x40_0000_0000 {
        0x40_0000_0000
    } else {
        q as u64
    };
    if c < 0 {
        -(m as i64)
    } else {
        m as i64
    }
}

/// Rotation of `v` by `q`: v + w*t + q.xyz x t where t = 2*(q.xyz x v).
pub open spec fn quat_rotate_spec(q: FxQuat, v: FxVec3) -> FxVec3 {
    let qv = FxVec3 { x: q.x, y: q.y, z: q.z };
    let c = v3_cross_spec(qv, v);
    let t = v3_add_spec(c, c);
    let wt = FxVec3 {
        x: fx_mul_spec(q.w as int, t.x as int) as i64,
        y: fx_mul_spec(q.w as int, t.y as int) as i64,
        z: fx_mul_spec(q.w as int, t.z as int) as i64,
    };
    v3_add_spec(v3_add_spec(v, wt), v3_cross_spec(qv, t))
}

/// Rotation of `v` by `q`.
pub fn quat_rotate(q: FxQuat, v: FxVec3) -> (r: FxVec3)
    requires
        quat_wf(q),
        v3_bounded(v),
    ensures
        r == quat_rotate_spec(q, v),
        v3_bounded(r),
{
    let qv = FxVec3 { x: q.x, y: q.y, z: q.z };
    let c = v3_cross(qv, v);
    let t = v3_add(c, c);
    let wt = FxVec3 { x: fx_mul(q.w, t.x), y: fx_mul(q.w, t.y), z: fx_mul(q.w, t.z) };
    v3_add(v3_add(v, wt), v3_cross(qv, t))
}

/// The Hamilton product of two quaternions, each term a saturating
/// fixed-point product, the sums saturating left to right, the result
/// clamped to the quaternion range.
pub open spec fn quat_mul_spec(a: FxQuat, b: FxQuat) -> FxQuat {
    let w = sat_spec(
        sat_spec(
            sat_spec(
                fx_mul_spec(a.w as int, b.w as int) - fx_mul_spec(a.x as int, b.x as int),
            ) - fx_mul_spec(a.y as int, b.y as int),
        ) - fx_mul_spec(a.z as int, b.z as int),
    );
    let x = sat_spec(
        sat_spec(
            sat_spec(
                fx_mul_spec(a.w as int, b.x as int) + fx_mul_spec(a.x as int, b.w as int),
            ) + fx_mul_spec(a.y as int, b.z as int),
        ) - fx_mul_spec(a.z as int, b.y as int),
    );
    let y = sat_spec(
        sat_spec(
            sat_spec(
                fx_mul_spec(a.w as int, b.y as int) - fx_mul_spec(a.x as int, b.z as int),
            ) + fx_mul_spec(a.y as int, b.w as int),
        ) + fx_mul_spec(a.z as int, b.x as int),
    );
    let z = sat_spec(
        sat_spec(
            sat_spec(
                fx_mul_spec(a.w as int, b.z as int) + fx_mul_spec(a.x as int, b.y as int),
            ) - fx_mul_spec(a.y as int, b.x as int),
        ) + fx_mul_spec(a.z as int, b.w as int),
    );
    quat_clamp_spec(FxQuat { x: x as i64, y: y as i64, z: z as i64, w: w as i64 })
}

/// The Hamilton product of two quaternions.
pub fn quat_mul(a: FxQuat, b: FxQuat) -> (r: FxQuat)
    ensures
        r == quat_mul_spec(a, b),
        quat_wf(r),
{
    let w: i64 = fx_sub(
        fx_sub(fx_sub(fx_mul(a.w, b.w), fx_mul(a.x, b.x)), fx_mul(a.y, b.y)),
        fx_mul(a.z, b.z),
    );
    let x: i64 = fx_sub(
        fx_add(fx_add(fx_mul(a.w, b.x), fx_mul(a.x, b.w)), fx_mul(a.y, b.z)),
        fx_mul(a.z, b.y),
    );
    let y: i64 = fx_add(
        fx_add(fx_sub(fx_mul(a.w, b.y), fx_mul(a.x, b.z)), fx_mul(a.y, b.w)),
        fx_mul(a.z, b.x),
    );
    let z: i64 = fx_add(
        fx_sub(fx_add(fx_mul(a.w, b.z), fx_mul(a.x, b.y)), fx_mul(a.y, b.x)),
        fx_mul(a.z, b.w),
    );
    let q = FxQuat { x, y, z, w };
    q.clamped()
}

/// A local transform: translation, rotation, scale (applied scale first).
#[derive(Clone, Copy, Debug, PartialEq, Eq, Structural)]
pub struct Trs {
    pub translation: FxVec3,
    pub rotation: FxQuat,
    pub scale: FxVec3,
}

/// Transforms whose rotation is clamped and whose parts are in range.
pub open spec fn trs_wf(t: Trs) -> bool {
    &&& v3_bounded(t.translation)
    &&& quat_wf(t.rotation)
    &&& v3_bounded(t.scale)
}

impl Trs {
    /// The identity transform.
    pub fn identity() -> (r: Trs)
        ensures
            r == trs_identity_spec(),
            trs_wf(r),
    {
        Trs {
            translation: FxVec3::zero(),
            rotation: FxQuat::identity(),
            scale: FxVec3 { x: FX_ONE, y: FX_ONE, z: FX_ONE },
        }
    }

    /// Maps a point from this transform's local space to its parent space.
    pub fn apply_point(&self, p: FxVec3) -> (r: FxVec3)
        requires
            trs_wf(*self),
            v3_bounded(p),
        ensures
            r == trs_apply_spec(*self, p),
            v3_bounded(r),
    {
        let scaled = v3_mul(self.scale, p);
        let rotated = quat_rotate(self.rotation, scaled);
        v3_add(self.translation, rotated)
    }
}

/// The identity transform.
pub open spec fn trs_identity_spec() -> Trs {
    Trs {
        translation: FxVec3 { x: 0, y: 0, z: 0 },
        rotation: FxQuat { x: 0, y: 0, z: 0, w: FX_ONE as i64 },
        scale: FxVec3 { x: FX_ONE as i64, y: FX_ONE as i64, z: FX_ONE as i64 },
    }
}

/// translation + rotate(rotation, scale * p).
pub open spec fn trs_apply_spec(t: Trs, p: FxVec3) -> FxVec3 {
    v3_add_spec(t.translation, quat_rotate_spec(t.rotation, v3_mul_spec(t.scale, p)))
}

/// A transform with identity rotation and unit scale moves a point by its
/// translation alone.
pub proof fn lemma_translation_only_apply(t: Trs, p: FxVec3)
    requires
        t.rotation == (FxQuat { x: 0, y: 0, z: 0, w: FX_ONE as i64 }),
        t.scale == (FxVec3 { x: FX_ONE as i64, y: FX_ONE as i64, z: FX_ONE as i64 }),
        v3_bounded(p),
        v3_bounded(t.translation),
    ensures
        trs_apply_spec(t, p) == v3_add_spec(t.translation, p),
{
    let s = v3_mul_spec(t.scale, p);
    assert(trunc_div_spec((FX_ONE as int) * (p.x as int), 65536) == p.x as int) by (nonlinear_arith)
        requires
            abs_int(p.x as int) <= FX_RAW_MAX,
    ;
    assert(trunc_div_spec((FX_ONE as int) * (p.y as int), 65536) == p.y as int) by (nonlinear_arith)
        requires
            abs_int(p.y as int) <= FX_RAW_MAX,
    ;
    assert(trunc_div_spec((FX_ONE as int) * (p.z as int), 65536) == p.z as int) by (nonlinear_arith)
        requires
            abs_int(p.z as int) <= FX_RAW_MAX,
    ;
    assert(s == p);
    let rot = quat_rotate_spec(t.rotation, s);
    assert(rot == s);
}

} // verus!
