//! The gaze evaluator: straight-ahead neutrality and mirror symmetry.

use vrm_scene::document::{LookAtJson, LookAtModeJson, RangeMapJson};
use vrm_scene::fixed::FX_ONE;
use vrm_scene::gaze::LookAtRangeMap;
use vrm_scene::geom::FxVec3;

fn sample_map() -> LookAtRangeMap {
    LookAtRangeMap::from_look_at(&LookAtJson {
        mode: LookAtModeJson::Bone,
        offset_from_head_bone: FxVec3 { x: 0, y: 0, z: 0 },
        range_map_horizontal_inner: RangeMapJson {
            input_max_value: FX_ONE,
            output_scale: 3 * FX_ONE,
        },
        range_map_horizontal_outer: RangeMapJson {
            input_max_value: 2 * FX_ONE,
            output_scale: FX_ONE,
        },
        range_map_vertical_down: RangeMapJson {
            input_max_value: FX_ONE / 2,
            output_scale: FX_ONE,
        },
        range_map_vertical_up: RangeMapJson { input_max_value: FX_ONE, output_scale: 2 * FX_ONE },
    })
}

#[test]
fn straight_ahead_is_neutral() {
    // Looking along -z gives no rotation for both eyes, whatever the
    // calibration.
    let m = sample_map();
    let target = FxVec3 { x: 0, y: 0, z: -FX_ONE };
    let (left, right) = m.evaluate_both(target);
    assert_eq!(left, (0, 0));
    assert_eq!(right, (0, 0));
    let id = LookAtRangeMap::identity();
    assert_eq!(id.evaluate(target), (0, 0));
}

#[test]
fn mirrored_eye_negates_yaw() {
    // Evaluating the x-mirrored target through the flipped map yields the
    // opposite yaw and the same pitch, for any valid calibration; the
    // paired-eye result of evaluate_both undoes that sign to express the
    // rotation in the eye's own frame.
    let m = sample_map();
    for &(x, y, z) in [
        (FX_ONE / 2, FX_ONE / 4, -FX_ONE),
        (-FX_ONE / 3, -FX_ONE / 5, -2 * FX_ONE),
        (FX_ONE, 0, -FX_ONE),
        (-2 * FX_ONE, FX_ONE, -FX_ONE),
    ]
    .iter()
    {
        let target = FxVec3 { x, y, z };
        let left = m.evaluate(target);
        let mirrored = FxVec3 { x: -x, y, z };
        let raw = m.flipped().evaluate(mirrored);
        assert_eq!(raw.0, -left.0, "yaw must mirror for target {:?}", (x, y, z));
        assert_eq!(raw.1, left.1, "pitch must match for target {:?}", (x, y, z));
        let (both_left, both_right) = m.evaluate_both(target);
        assert_eq!(both_left, left);
        assert_eq!(both_right.0, -raw.0);
        assert_eq!(both_right.1, raw.1);
    }
}

#[test]
fn deflection_clamps_to_input_maximum() {
    // A map whose inner bucket saturates at a small angle: a huge lateral
    // target cannot exceed input_max * ratio.
    let m = LookAtRangeMap {
        input_scale: [1000, 1000, 1000, 1000],
        output_scale: [FX_ONE, FX_ONE, FX_ONE, FX_ONE],
    };
    let far = FxVec3 { x: 100 * FX_ONE, y: 0, z: -FX_ONE };
    let (yaw, pitch) = m.evaluate(far);
    assert_eq!(yaw, 1000);
    assert_eq!(pitch, 0);
}

#[test]
fn flipped_swaps_horizontal_buckets() {
    let m = sample_map();
    let f = m.flipped();
    assert_eq!(f.input_scale[0], m.input_scale[1]);
    assert_eq!(f.input_scale[1], m.input_scale[0]);
    assert_eq!(f.input_scale[2], m.input_scale[2]);
    assert_eq!(f.input_scale[3], m.input_scale[3]);
    assert_eq!(f.output_scale[0], m.output_scale[1]);
    assert_eq!(f.output_scale[1], m.output_scale[0]);
}

#[test]
fn calibration_ratio_is_output_over_input() {
    let m = sample_map();
    // inner: 3.0 out over 1.0 in = 3.0; outer: 1.0 over 2.0 = 0.5;
    // down: 1.0 over 0.5 = 2.0; up: 2.0 over 1.0 = 2.0.
    assert_eq!(m.input_scale[0], FX_ONE);
    assert_eq!(m.output_scale[0], 3 * FX_ONE);
    assert_eq!(m.output_scale[1], FX_ONE / 2);
    assert_eq!(m.output_scale[2], 2 * FX_ONE);
    assert_eq!(m.output_scale[3], 2 * FX_ONE);
}

#[test]
fn invalid_calibration_falls_back_to_identity_pair() {
    let m = LookAtRangeMap::from_look_at(&LookAtJson {
        mode: LookAtModeJson::Bone,
        offset_from_head_bone: FxVec3 { x: 0, y: 0, z: 0 },
        range_map_horizontal_inner: RangeMapJson { input_max_value: 0, output_scale: 5 * FX_ONE },
        range_map_horizontal_outer: RangeMapJson {
            input_max_value: -FX_ONE,
            output_scale: FX_ONE,
        },
        range_map_vertical_down: RangeMapJson { input_max_value: FX_ONE, output_scale: FX_ONE },
        range_map_vertical_up: RangeMapJson { input_max_value: FX_ONE, output_scale: FX_ONE },
    });
    assert_eq!(m.input_scale[0], FX_ONE);
    assert_eq!(m.input_scale[1], FX_ONE);
}
