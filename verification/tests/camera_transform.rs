//! Camera activation order and matrix-declared node transforms.

use vrm_scene::fixed::FX_ONE;
use vrm_scene::geom::FxVec3;
use vrm_scene::scene::{load_vrm, trs_from_matrix};

fn camera_document() -> String {
    r#"{
        "cameras": [
            {"type": "perspective", "perspective": {"yfov": 1.0, "znear": 0.1}},
            {"type": "orthographic", "orthographic": {"xmag": 1, "ymag": 1, "znear": 0, "zfar": 10}}
        ],
        "nodes": [
            {"name": "first", "camera": 0},
            {"name": "second", "camera": 1}
        ],
        "scenes": [{"nodes": [0, 1]}],
        "extensions": {"VRMC_vrm": {
            "specVersion": "1.0",
            "humanoid": {"humanBones": {"hips": {"node": 0}}},
            "lookAt": {
                "type": "bone",
                "offsetFromHeadBone": [0, 0, 0],
                "rangeMapHorizontalInner": {"inputMaxValue": 1, "outputScale": 1},
                "rangeMapHorizontalOuter": {"inputMaxValue": 1, "outputScale": 1},
                "rangeMapVerticalDown": {"inputMaxValue": 1, "outputScale": 1},
                "rangeMapVerticalUp": {"inputMaxValue": 1, "outputScale": 1}
            }
        }}
    }"#
    .to_string()
}

#[test]
fn first_camera_in_traversal_is_active() {
    let vrm = load_vrm(&camera_document().into_bytes(), &Vec::new()).unwrap();
    let scene = &vrm.scenes[0].1;
    assert!(scene.nodes[0].camera_active);
    assert!(!scene.nodes[1].camera_active);
    assert_eq!(scene.nodes[0].camera, Some(0));
    assert_eq!(scene.nodes[1].camera, Some(1));
}

#[test]
fn matrix_transform_keeps_translation() {
    // A pure translation matrix, column major: the last column carries
    // (5, 6, 7).
    let mut entries = vec![0i64; 16];
    entries[0] = FX_ONE;
    entries[5] = FX_ONE;
    entries[10] = FX_ONE;
    entries[15] = FX_ONE;
    entries[12] = 5 * FX_ONE;
    entries[13] = 6 * FX_ONE;
    entries[14] = 7 * FX_ONE;
    let t = trs_from_matrix(&entries);
    assert_eq!(
        t.translation,
        FxVec3 { x: 5 * FX_ONE, y: 6 * FX_ONE, z: 7 * FX_ONE }
    );
    assert_eq!(t.scale, FxVec3 { x: FX_ONE, y: FX_ONE, z: FX_ONE });
    // The identity basis recovers the identity rotation.
    assert_eq!(t.rotation.w, FX_ONE);
    assert_eq!(t.rotation.x, 0);
    assert_eq!(t.rotation.y, 0);
    assert_eq!(t.rotation.z, 0);
}

#[test]
fn matrix_node_in_a_document() {
    let doc = camera_document().replace(
        r#"{"name": "first", "camera": 0}"#,
        r#"{"name": "first", "camera": 0, "matrix": [1,0,0,0, 0,1,0,0, 0,0,1,0, 2,3,4,1]}"#,
    );
    let vrm = load_vrm(&doc.into_bytes(), &Vec::new()).unwrap();
    let node = &vrm.scenes[0].1.nodes[0];
    assert_eq!(
        node.transform.translation,
        FxVec3 { x: 2 * FX_ONE, y: 3 * FX_ONE, z: 4 * FX_ONE }
    );
}
