//! The gaze (eye look-at) evaluator.
//!
//! A calibrated range map turns a gaze-target position in eye-local space
//! into a yaw/pitch pair: the horizontal and vertical deflection angles are
//! split into inner/outer and down/up buckets by sign, clamped against the
//! calibrated input maxima, scaled by the calibrated output/input ratios and
//! combined. All angles are Q47.16 radians.

use vstd::prelude::*;

use crate::document::LookAtJson;
use crate::fixed::{
    abs_int, clamp_spec, fx_clamp, fx_div, fx_div_spec, fx_mul, fx_mul_spec, fx_sub, sat_spec,
    trunc_div_spec, FX_ONE, FX_RAW_MAX,
};
use crate::geom::{quat_mul, quat_mul_spec, quat_wf, v3_bounded, FxQuat, FxVec3};

verus! {

/// Pi in Q47.16.
pub const PI_FX: i64 = 205887;

/// Half pi in Q47.16.
pub const PI2_FX: i64 = 102944;

/// Quarter pi in Q47.16.
pub const PI4_FX: i64 = 51472;

/// The linear-correction coefficient of the arctangent approximation
/// (0.273 in Q47.16).
pub const ATAN_K: i64 = 17891;

/// The arctangent polynomial on [0, 1]: (pi/4)x + 0.273 x (1 - x).
pub open spec fn atan_poly_spec(x: int) -> int {
    fx_mul_spec(x, PI4_FX as int) + fx_mul_spec(fx_mul_spec(x, FX_ONE - x), ATAN_K as int)
}

/// The arctangent of n/d for nonnegative n and positive d, via the
/// polynomial and the reciprocal identity for arguments past 1.
pub open spec fn atan_ratio_spec(n: int, d: int) -> int {
    let t = fx_div_spec(n, d);
    if t <= FX_ONE {
        atan_poly_spec(t)
    } else {
        PI2_FX - atan_poly_spec(fx_div_spec(FX_ONE as int, t))
    }
}

/// The polynomial stays within [0, pi/2] on [0, 1] and is zero at zero.
pub proof fn lemma_atan_poly_bounds(x: int)
    requires
        0 <= x <= FX_ONE,
    ensures
        0 <= atan_poly_spec(x) < PI2_FX,
        x == 0 ==> atan_poly_spec(x) == 0,
{
    let a = fx_mul_spec(x, PI4_FX as int);
    let b = fx_mul_spec(fx_mul_spec(x, FX_ONE - x), ATAN_K as int);
    assert(x * PI4_FX <= FX_ONE * PI4_FX) by (nonlinear_arith)
        requires
            0 <= x <= FX_ONE,
    ;
    assert(x * PI4_FX >= 0) by (nonlinear_arith)
        requires
            0 <= x,
    ;
    assert(0 <= a <= PI4_FX) by (nonlinear_arith)
        requires
            a == fx_mul_spec(x, PI4_FX as int),
            0 <= x * PI4_FX <= FX_ONE * PI4_FX,
    ;
    let m = fx_mul_spec(x, FX_ONE - x);
    assert(0 <= x * (FX_ONE - x) <= 0x4000_0000) by (nonlinear_arith)
        requires
            0 <= x <= FX_ONE,
    ;
    assert(0 <= m <= 0x4000) by (nonlinear_arith)
        requires
            m == fx_mul_spec(x, FX_ONE - x),
            0 <= x * (FX_ONE - x) <= 0x4000_0000,
    ;
    assert(0 <= m * ATAN_K <= 0x4000 * ATAN_K) by (nonlinear_arith)
        requires
            0 <= m <= 0x4000,
    ;
    assert(0 <= b <= 4473) by (nonlinear_arith)
        requires
            b == fx_mul_spec(m as int, ATAN_K as int),
            0 <= m * ATAN_K <= 0x4000 * ATAN_K,
    ;
}

/// The arctangent of a nonnegative ratio.
pub fn atan_ratio(n: i64, d: i64) -> (r: i64)
    requires
        0 <= n,
        0 < d,
    ensures
        r == atan_ratio_spec(n as int, d as int),
        0 <= r <= PI2_FX,
        n == 0 ==> r == 0,
{
    let t: i64 = fx_div(n, d);
    proof {
        assert(fx_div_spec(n as int, d as int) >= 0);
        if n == 0 {
            assert(fx_div_spec(0, d as int) == 0);
        }
    }
    if t <= FX_ONE {
        proof {
            lemma_atan_poly_bounds(t as int);
        }
        atan_poly(t)
    } else {
        let inv: i64 = fx_div(FX_ONE, t);
        proof {
            assert((FX_ONE as int) * 65536 / (t as int) <= FX_ONE) by (nonlinear_arith)
                requires
                    t > FX_ONE,
            ;
            lemma_atan_poly_bounds(inv as int);
        }
        PI2_FX - atan_poly(inv)
    }
}

/// The arctangent polynomial on [0, 1].
fn atan_poly(x: i64) -> (r: i64)
    requires
        0 <= x <= FX_ONE,
    ensures
        r == atan_poly_spec(x as int),
        0 <= r < PI2_FX,
{
    proof {
        lemma_atan_poly_bounds(x as int);
    }
    fx_mul(x, PI4_FX) + fx_mul(fx_mul(x, FX_ONE - x), ATAN_K)
}

/// A calibrated gaze range map. Components are ordered inner, outer, down,
/// up; `input_scale` holds the input maxima, `output_scale` the
/// output-over-input ratios.
#[derive(Clone, Copy, Debug)]
pub struct LookAtRangeMap {
    /// Largest input deflection per bucket (positive).
    pub input_scale: [i64; 4],
    /// Output-over-input ratio per bucket.
    pub output_scale: [i64; 4],
}

impl LookAtRangeMap {
    /// Valid calibration: positive input maxima, ratios in scalar range.
    pub open spec fn wf(self) -> bool {
        &&& forall|i: int| 0 <= i < 4 ==> 0 < #[trigger] self.input_scale@[i] <= FX_RAW_MAX
        &&& forall|i: int| 0 <= i < 4 ==> abs_int(#[trigger] self.output_scale@[i] as int) <= FX_RAW_MAX
    }

    /// The map with the two horizontal buckets swapped, for the paired eye.
    pub open spec fn flipped_spec(self) -> LookAtRangeMap {
        LookAtRangeMap {
            input_scale: [
                self.input_scale@[1],
                self.input_scale@[0],
                self.input_scale@[2],
                self.input_scale@[3],
            ],
            output_scale: [
                self.output_scale@[1],
                self.output_scale@[0],
                self.output_scale@[2],
                self.output_scale@[3],
            ],
        }
    }

    /// Identity calibration.
    pub fn identity() -> (r: LookAtRangeMap)
        ensures
            r.wf(),
            r.input_scale@ == seq![FX_ONE as i64, FX_ONE as i64, FX_ONE as i64, FX_ONE as i64],
            r.output_scale@ == seq![FX_ONE as i64, FX_ONE as i64, FX_ONE as i64, FX_ONE as i64],
    {
        let r = LookAtRangeMap {
            input_scale: [FX_ONE, FX_ONE, FX_ONE, FX_ONE],
            output_scale: [FX_ONE, FX_ONE, FX_ONE, FX_ONE],
        };
        proof {
            assert(r.input_scale@ =~= seq![
                FX_ONE as i64,
                FX_ONE as i64,
                FX_ONE as i64,
                FX_ONE as i64,
            ]);
            assert(r.output_scale@ =~= seq![
                FX_ONE as i64,
                FX_ONE as i64,
                FX_ONE as i64,
                FX_ONE as i64,
            ]);
        }
        r
    }

    /// Builds the map from the extension's four calibration pairs: the
    /// stored ratio is output over input. A pair whose input maximum is not
    /// positive falls back to the identity pair.
    pub fn from_look_at(json: &LookAtJson) -> (r: LookAtRangeMap)
        ensures
            r.wf(),
            r.input_scale@[0] == range_input_spec(json.range_map_horizontal_inner.input_max_value as int),
            r.input_scale@[1] == range_input_spec(json.range_map_horizontal_outer.input_max_value as int),
            r.input_scale@[2] == range_input_spec(json.range_map_vertical_down.input_max_value as int),
            r.input_scale@[3] == range_input_spec(json.range_map_vertical_up.input_max_value as int),
            r.output_scale@[0] == range_ratio_spec(
                json.range_map_horizontal_inner.input_max_value as int,
                json.range_map_horizontal_inner.output_scale as int,
            ),
            r.output_scale@[1] == range_ratio_spec(
                json.range_map_horizontal_outer.input_max_value as int,
                json.range_map_horizontal_outer.output_scale as int,
            ),
            r.output_scale@[2] == range_ratio_spec(
                json.range_map_vertical_down.input_max_value as int,
                json.range_map_vertical_down.output_scale as int,
            ),
            r.output_scale@[3] == range_ratio_spec(
                json.range_map_vertical_up.input_max_value as int,
                json.range_map_vertical_up.output_scale as int,
            ),
    {
        let (i0, o0) = range_pair(
            json.range_map_horizontal_inner.input_max_value,
            json.range_map_horizontal_inner.output_scale,
        );
        let (i1, o1) = range_pair(
            json.range_map_horizontal_outer.input_max_value,
            json.range_map_horizontal_outer.output_scale,
        );
        let (i2, o2) = range_pair(
            json.range_map_vertical_down.input_max_value,
            json.range_map_vertical_down.output_scale,
        );
        let (i3, o3) = range_pair(
            json.range_map_vertical_up.input_max_value,
            json.range_map_vertical_up.output_scale,
        );
        LookAtRangeMap { input_scale: [i0, i1, i2, i3], output_scale: [o0, o1, o2, o3] }
    }

    /// The map for the paired eye: horizontal buckets swapped.
    pub fn flipped(&self) -> (r: LookAtRangeMap)
        ensures
            r == self.flipped_spec(),
            self.wf() ==> r.wf(),
    {
        let r = LookAtRangeMap {
            input_scale: [
                self.input_scale[1],
                self.input_scale[0],
                self.input_scale[2],
                self.input_scale[3],
            ],
            output_scale: [
                self.output_scale[1],
                self.output_scale[0],
                self.output_scale[2],
                self.output_scale[3],
            ],
        };
        proof {
            assert(r.input_scale@ =~= self.flipped_spec().input_scale@);
            assert(r.output_scale@ =~= self.flipped_spec().output_scale@);
        }
        r
    }

    /// Evaluates the gaze rotation for a target in eye-local space.
    pub fn evaluate(&self, target: FxVec3) -> (r: (i64, i64))
        requires
            self.wf(),
            v3_bounded(target),
        ensures
            r.0 == evaluate_yaw_spec(*self, target),
            r.1 == evaluate_pitch_spec(*self, target),
            target.x == 0 && target.y == 0 ==> r.0 == 0 && r.1 == 0,
    {
        let dz: i64 = if target.z >= 0 {
            target.z
        } else {
            -target.z
        };
        let hx: i64 = if target.x >= 0 {
            target.x
        } else {
            -target.x
        };
        let vy: i64 = if target.y >= 0 {
            target.y
        } else {
            -target.y
        };
        let hor: i64 = deflection(hx, dz);
        let vert: i64 = deflection(vy, dz);
        let inner: i64 = if target.x >= 0 {
            hor
        } else {
            0
        };
        let outer: i64 = if target.x < 0 {
            hor
        } else {
            0
        };
        let down: i64 = if target.y < 0 {
            vert
        } else {
            0
        };
        let up: i64 = if target.y >= 0 {
            vert
        } else {
            0
        };
        let s0: i64 = scale_bucket(inner, self.input_scale[0], self.output_scale[0]);
        let s1: i64 = scale_bucket(outer, self.input_scale[1], self.output_scale[1]);
        let s2: i64 = scale_bucket(down, self.input_scale[2], self.output_scale[2]);
        let s3: i64 = scale_bucket(up, self.input_scale[3], self.output_scale[3]);
        (s0 - s1, s2 - s3)
    }

    /// Evaluates both eyes: the paired eye sees the target mirrored across
    /// x through the flipped map, and its yaw is negated.
    pub fn evaluate_both(&self, target: FxVec3) -> (r: ((i64, i64), (i64, i64)))
        requires
            self.wf(),
            v3_bounded(target),
        ensures
            r.0.0 == evaluate_yaw_spec(*self, target),
            r.0.1 == evaluate_pitch_spec(*self, target),
            r.1.0 == -evaluate_yaw_spec(
                self.flipped_spec(),
                FxVec3 { x: (0 - target.x) as i64, y: target.y, z: target.z },
            ),
            r.1.1 == evaluate_pitch_spec(
                self.flipped_spec(),
                FxVec3 { x: (0 - target.x) as i64, y: target.y, z: target.z },
            ),
    {
        let left = self.evaluate(target);
        let mirrored = FxVec3 { x: -target.x, y: target.y, z: target.z };
        let fl = self.flipped();
        let right_raw = fl.evaluate(mirrored);
        (left, (-right_raw.0, right_raw.1))
    }
}

/// An input maximum, with non-positive values replaced by 1.
pub open spec fn range_input_spec(input_max: int) -> int {
    if 0 < input_max <= FX_RAW_MAX {
        input_max
    } else {
        FX_ONE as int
    }
}

/// The stored output-over-input ratio of a calibration pair.
pub open spec fn range_ratio_spec(input_max: int, output_scale: int) -> int {
    fx_div_spec(output_scale, range_input_spec(input_max))
}

/// Builds one calibration pair.
fn range_pair(input_max: i64, output_scale: i64) -> (r: (i64, i64))
    ensures
        r.0 == range_input_spec(input_max as int),
        r.1 == range_ratio_spec(input_max as int, output_scale as int),
        0 < r.0 <= FX_RAW_MAX,
        abs_int(r.1 as int) <= FX_RAW_MAX,
{
    let im: i64 = if 0 < input_max && input_max <= FX_RAW_MAX {
        input_max
    } else {
        FX_ONE
    };
    (im, fx_div(output_scale, im))
}

/// The deflection angle of one axis: atan of the ratio against depth, with
/// a right angle when the depth is zero and the offset is not.
pub open spec fn deflection_spec(num: int, dz: int) -> int {
    if dz == 0 {
        if num == 0 {
            0
        } else {
            PI2_FX as int
        }
    } else {
        atan_ratio_spec(num, dz)
    }
}

/// The deflection angle of one axis.
fn deflection(num: i64, dz: i64) -> (r: i64)
    requires
        0 <= num,
        0 <= dz,
    ensures
        r == deflection_spec(num as int, dz as int),
        0 <= r <= PI2_FX,
        num == 0 ==> r == 0,
{
    if dz == 0 {
        if num == 0 {
            0
        } else {
            PI2_FX
        }
    } else {
        atan_ratio(num, dz)
    }
}

/// One bucket's contribution: the angle clamped to the input maximum and
/// scaled by the output ratio.
pub open spec fn scale_bucket_spec(angle: int, input_max: int, ratio: int) -> int {
    let clamped = if angle > input_max {
        input_max
    } else {
        angle
    };
    fx_mul_spec(clamped, ratio)
}

/// One bucket's contribution.
fn scale_bucket(angle: i64, input_max: i64, ratio: i64) -> (r: i64)
    requires
        0 <= angle,
        0 < input_max <= FX_RAW_MAX,
        abs_int(ratio as int) <= FX_RAW_MAX,
    ensures
        r == scale_bucket_spec(angle as int, input_max as int, ratio as int),
        abs_int(r as int) <= FX_RAW_MAX,
        angle == 0 ==> r == 0,
{
    let clamped: i64 = if angle > input_max {
        input_max
    } else {
        angle
    };
    let r = fx_mul(clamped, ratio);
    proof {
        if angle == 0 {
            assert((0int) * (ratio as int) == 0) by (nonlinear_arith);
            assert(fx_mul_spec(0, ratio as int) == 0);
        }
    }
    r
}

/// The yaw the evaluator computes: inner minus outer bucket contribution.
pub open spec fn evaluate_yaw_spec(m: LookAtRangeMap, target: FxVec3) -> int {
    let dz = abs_int(target.z as int);
    let hor = deflection_spec(abs_int(target.x as int), dz);
    let inner = if target.x >= 0 {
        hor
    } else {
        0
    };
    let outer = if target.x < 0 {
        hor
    } else {
        0
    };
    scale_bucket_spec(inner, m.input_scale@[0] as int, m.output_scale@[0] as int)
        - scale_bucket_spec(outer, m.input_scale@[1] as int, m.output_scale@[1] as int)
}

/// The pitch the evaluator computes: down minus up bucket contribution.
pub open spec fn evaluate_pitch_spec(m: LookAtRangeMap, target: FxVec3) -> int {
    let dz = abs_int(target.z as int);
    let vert = deflection_spec(abs_int(target.y as int), dz);
    let down = if target.y < 0 {
        vert
    } else {
        0
    };
    let up = if target.y >= 0 {
        vert
    } else {
        0
    };
    scale_bucket_spec(down, m.input_scale@[2] as int, m.output_scale@[2] as int)
        - scale_bucket_spec(up, m.input_scale@[3] as int, m.output_scale@[3] as int)
}

/// Looking straight ahead yields no rotation, whatever the calibration:
/// with no lateral offset every deflection angle is zero.
pub proof fn lemma_gaze_straight_ahead(m: LookAtRangeMap, z: i64)
    requires
        m.wf(),
    ensures
        evaluate_yaw_spec(m, FxVec3 { x: 0, y: 0, z }) == 0,
        evaluate_pitch_spec(m, FxVec3 { x: 0, y: 0, z }) == 0,
{
    let t = FxVec3 { x: 0, y: 0, z };
    let dz = abs_int(z as int);
    if dz != 0 {
        assert(fx_div_spec(0, dz) == 0);
        lemma_atan_poly_bounds(0);
    }
    assert(deflection_spec(0, dz) == 0);
    assert(fx_mul_spec(0, m.output_scale@[0] as int) == 0);
    assert(fx_mul_spec(0, m.output_scale@[1] as int) == 0);
    assert(fx_mul_spec(0, m.output_scale@[2] as int) == 0);
    assert(fx_mul_spec(0, m.output_scale@[3] as int) == 0);
}

/// The paired eye mirrors the primary eye: evaluating the target mirrored
/// across x through the flipped map yields the opposite yaw and the same
/// pitch, for any valid calibration.
pub proof fn lemma_gaze_mirror(m: LookAtRangeMap, target: FxVec3)
    requires
        m.wf(),
        v3_bounded(target),
    ensures
        evaluate_yaw_spec(
            m.flipped_spec(),
            FxVec3 { x: (0 - target.x) as i64, y: target.y, z: target.z },
        ) == -evaluate_yaw_spec(m, target),
        evaluate_pitch_spec(
            m.flipped_spec(),
            FxVec3 { x: (0 - target.x) as i64, y: target.y, z: target.z },
        ) == evaluate_pitch_spec(m, target),
{
    let f = m.flipped_spec();
    let mt = FxVec3 { x: (0 - target.x) as i64, y: target.y, z: target.z };
    let dz = abs_int(target.z as int);
    assert(abs_int(mt.x as int) == abs_int(target.x as int));
    let hor = deflection_spec(abs_int(target.x as int), dz);
    assert(f.input_scale@[0] == m.input_scale@[1]);
    assert(f.input_scale@[1] == m.input_scale@[0]);
    assert(f.output_scale@[0] == m.output_scale@[1]);
    assert(f.output_scale@[1] == m.output_scale@[0]);
    assert(f.input_scale@[2] == m.input_scale@[2]);
    assert(f.input_scale@[3] == m.input_scale@[3]);
    assert(f.output_scale@[2] == m.output_scale@[2]);
    assert(f.output_scale@[3] == m.output_scale@[3]);
    if target.x == 0 {
        if dz != 0 {
            assert(fx_div_spec(0, dz) == 0);
            lemma_atan_poly_bounds(0);
        }
        assert(hor == 0);
        assert(fx_mul_spec(0, m.output_scale@[0] as int) == 0);
        assert(fx_mul_spec(0, m.output_scale@[1] as int) == 0);
    }
}

/// The sine of an angle clamped to [-pi, pi], by the odd polynomial
/// x (1 - x^2/6 (1 - x^2/20)), clamped to the quaternion range.
pub open spec fn fx_sin_spec(angle: int) -> int {
    let x = clamp_spec(angle, PI_FX as int);
    let x2 = fx_mul_spec(x, x);
    let s1 = sat_spec(FX_ONE - fx_div_spec(x2, 20 * FX_ONE));
    let s2 = sat_spec(FX_ONE - fx_mul_spec(fx_div_spec(x2, 6 * FX_ONE), s1));
    clamp_spec(fx_mul_spec(x, s2), 2 * FX_ONE)
}

/// The cosine of an angle clamped to [-pi, pi], by the even polynomial
/// 1 - x^2/2 (1 - x^2/12), clamped to the quaternion range.
pub open spec fn fx_cos_spec(angle: int) -> int {
    let x = clamp_spec(angle, PI_FX as int);
    let x2 = fx_mul_spec(x, x);
    let c1 = sat_spec(FX_ONE - fx_div_spec(x2, 12 * FX_ONE));
    clamp_spec(sat_spec(FX_ONE - fx_mul_spec(fx_div_spec(x2, 2 * FX_ONE), c1)), 2 * FX_ONE)
}

/// The sine of an angle (clamped to [-pi, pi]).
pub fn fx_sin(angle: i64) -> (r: i64)
    ensures
        r == fx_sin_spec(angle as int),
        abs_int(r as int) <= 2 * FX_ONE,
        angle == 0 ==> r == 0,
{
    let x: i64 = fx_clamp(angle, PI_FX);
    let x2: i64 = fx_mul(x, x);
    let s1: i64 = fx_sub(FX_ONE, fx_div(x2, 20 * FX_ONE));
    let s2: i64 = fx_sub(FX_ONE, fx_mul(fx_div(x2, 6 * FX_ONE), s1));
    let r = fx_clamp(fx_mul(x, s2), 2 * FX_ONE);
    proof {
        if angle == 0 {
            assert((0int) * (0int) == 0) by (nonlinear_arith);
            assert(fx_mul_spec(0, 0) == 0);
            assert((0int) * (s2 as int) == 0) by (nonlinear_arith);
            assert(fx_mul_spec(0, s2 as int) == 0);
        }
    }
    r
}

/// The cosine of an angle (clamped to [-pi, pi]).
pub fn fx_cos(angle: i64) -> (r: i64)
    ensures
        r == fx_cos_spec(angle as int),
        abs_int(r as int) <= 2 * FX_ONE,
        angle == 0 ==> r == FX_ONE,
{
    let x: i64 = fx_clamp(angle, PI_FX);
    let x2: i64 = fx_mul(x, x);
    let c1: i64 = fx_sub(FX_ONE, fx_div(x2, 12 * FX_ONE));
    let r = fx_clamp(fx_sub(FX_ONE, fx_mul(fx_div(x2, 2 * FX_ONE), c1)), 2 * FX_ONE);
    proof {
        if angle == 0 {
            assert((0int) * (0int) == 0) by (nonlinear_arith);
            assert(fx_mul_spec(0, 0) == 0);
            assert((0int) * (c1 as int) == 0) by (nonlinear_arith);
            assert(fx_mul_spec(0, c1 as int) == 0);
        }
    }
    r
}

/// The rotation a yaw angle denotes: about the y axis, by half-angle sine
/// and cosine.
pub open spec fn yaw_quat_spec(yaw: int) -> FxQuat {
    let half = trunc_div_spec(yaw, 2);
    FxQuat { x: 0, y: fx_sin_spec(half) as i64, z: 0, w: fx_cos_spec(half) as i64 }
}

/// The rotation a pitch angle denotes: about the x axis.
pub open spec fn pitch_quat_spec(pitch: int) -> FxQuat {
    let half = trunc_div_spec(pitch, 2);
    FxQuat { x: fx_sin_spec(half) as i64, y: 0, z: 0, w: fx_cos_spec(half) as i64 }
}

/// Halves an angle, truncating toward zero.
fn half_angle(a: i64) -> (r: i64)
    requires
        abs_int(a as int) <= 2 * FX_RAW_MAX,
    ensures
        r == trunc_div_spec(a as int, 2),
{
    if a >= 0 {
        a / 2
    } else {
        -((-a) / 2)
    }
}

/// Composes an evaluated gaze pair with the eye's resting rotation: the
/// yaw rotation about y, then the pitch rotation about x, then the stored
/// offset, as quaternion products.
pub fn gaze_rotation(yaw: i64, pitch: i64, offset: FxQuat) -> (r: FxQuat)
    requires
        quat_wf(offset),
        abs_int(yaw as int) <= 2 * FX_RAW_MAX,
        abs_int(pitch as int) <= 2 * FX_RAW_MAX,
    ensures
        r == quat_mul_spec(
            yaw_quat_spec(yaw as int),
            quat_mul_spec(pitch_quat_spec(pitch as int), offset),
        ),
        quat_wf(r),
{
    let hy: i64 = half_angle(yaw);
    let hp: i64 = half_angle(pitch);
    let yq = FxQuat { x: 0, y: fx_sin(hy), z: 0, w: fx_cos(hy) };
    let pq = FxQuat { x: fx_sin(hp), y: 0, z: 0, w: fx_cos(hp) };
    quat_mul(yq, quat_mul(pq, offset))
}

/// Composing a neutral gaze with a resting rotation leaves it unchanged.
pub proof fn lemma_gaze_rotation_neutral(offset: FxQuat)
    requires
        quat_wf(offset),
    ensures
        quat_mul_spec(yaw_quat_spec(0), quat_mul_spec(pitch_quat_spec(0), offset)) == offset,
{
    let inner = quat_mul_spec(pitch_quat_spec(0), offset);
    assert(trunc_div_spec(0, 2) == 0);
    assert(fx_sin_spec(0) == 0 && fx_cos_spec(0) == FX_ONE) by {
        assert((0int) * (0int) == 0) by (nonlinear_arith);
        assert(fx_mul_spec(0, 0) == 0);
        assert(fx_div_spec(0, 20 * FX_ONE) == 0);
        assert(fx_div_spec(0, 6 * FX_ONE) == 0);
        assert(fx_div_spec(0, 12 * FX_ONE) == 0);
        assert(fx_div_spec(0, 2 * FX_ONE) == 0);
        assert((0int) * (FX_ONE as int) == 0) by (nonlinear_arith);
        assert(fx_mul_spec(0, FX_ONE as int) == 0);
    }
    assert(pitch_quat_spec(0) == (FxQuat { x: 0, y: 0, z: 0, w: FX_ONE as i64 }));
    assert(yaw_quat_spec(0) == (FxQuat { x: 0, y: 0, z: 0, w: FX_ONE as i64 }));
    lemma_identity_quat_mul(offset);
    assert(inner == offset);
    lemma_identity_quat_mul(inner);
}

/// Multiplying by the identity quaternion on the left is the identity.
proof fn lemma_identity_quat_mul(q: FxQuat)
    requires
        quat_wf(q),
    ensures
        quat_mul_spec(FxQuat { x: 0, y: 0, z: 0, w: FX_ONE as i64 }, q) == q,
{
    lemma_fx_mul_one(q.x as int);
    lemma_fx_mul_one(q.y as int);
    lemma_fx_mul_one(q.z as int);
    lemma_fx_mul_one(q.w as int);
    lemma_fx_mul_zero(q.x as int);
    lemma_fx_mul_zero(q.y as int);
    lemma_fx_mul_zero(q.z as int);
    lemma_fx_mul_zero(q.w as int);
}

/// Multiplying a quaternion-range scalar by one is exact.
proof fn lemma_fx_mul_one(v: int)
    requires
        abs_int(v) <= 0x2_0000,
    ensures
        fx_mul_spec(FX_ONE as int, v) == v,
{
    assert(trunc_div_spec((FX_ONE as int) * v, 65536) == v) by (nonlinear_arith)
        requires
            abs_int(v) <= 0x2_0000,
    ;
}

/// Multiplying by zero yields zero.
proof fn lemma_fx_mul_zero(v: int)
    ensures
        fx_mul_spec(0, v) == 0,
{
    assert((0int) * v == 0) by (nonlinear_arith);
    assert(fx_mul_spec(0, v) == 0);
}

} // verus!
