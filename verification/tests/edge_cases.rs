//! Strided accessors, wide indices, several scenes, and parser limits.

use base64::Engine as _;

use vrm_scene::fixed::FX_ONE;
use vrm_scene::geom::FxVec3;
use vrm_scene::json::parse_json;
use vrm_scene::scene::load_vrm;

fn b64(bytes: &[u8]) -> String {
    base64::engine::general_purpose::STANDARD.encode(bytes)
}

fn skeleton(buffers: &str, views: &str, accessors: &str, meshes: &str, scenes: &str) -> String {
    format!(
        r#"{{
        "buffers": {buffers},
        "bufferViews": {views},
        "accessors": {accessors},
        "meshes": {meshes},
        "nodes": [{{"mesh": 0}}, {{"name": "other"}}],
        "scenes": {scenes},
        "extensions": {{"VRMC_vrm": {{
            "specVersion": "1.0",
            "humanoid": {{"humanBones": {{"hips": {{"node": 0}}}}}},
            "lookAt": {{
                "type": "bone",
                "offsetFromHeadBone": [0, 0, 0],
                "rangeMapHorizontalInner": {{"inputMaxValue": 1, "outputScale": 1}},
                "rangeMapHorizontalOuter": {{"inputMaxValue": 1, "outputScale": 1}},
                "rangeMapVerticalDown": {{"inputMaxValue": 1, "outputScale": 1}},
                "rangeMapVerticalUp": {{"inputMaxValue": 1, "outputScale": 1}}
            }}
        }}}}
    }}"#
    )
}

#[test]
fn strided_positions_decode() {
    // Two vertices interleaved with one padding float: stride 16.
    let mut bytes = Vec::new();
    for v in [[1.0f32, 2.0, 3.0, 9.0], [4.0, 5.0, 6.0, 9.0]] {
        for c in v {
            bytes.extend_from_slice(&c.to_bits().to_le_bytes());
        }
    }
    let doc = skeleton(
        &format!(
            r#"[{{"byteLength": 32, "uri": "data:application/octet-stream;base64,{}"}}]"#,
            b64(&bytes)
        ),
        r#"[{"buffer": 0, "byteOffset": 0, "byteLength": 32, "byteStride": 16}]"#,
        r#"[{"bufferView": 0, "componentType": 5126, "count": 2, "type": "VEC3"}]"#,
        r#"[{"primitives": [{"attributes": {"POSITION": 0}, "mode": 0}]}]"#,
        r#"[{"nodes": [0]}]"#,
    );
    let vrm = load_vrm(&doc.into_bytes(), &Vec::new()).unwrap();
    let prim = &vrm.meshes[0];
    assert_eq!(prim.positions.len(), 2);
    assert_eq!(prim.positions[0], FxVec3 { x: FX_ONE, y: 2 * FX_ONE, z: 3 * FX_ONE });
    assert_eq!(prim.positions[1], FxVec3 { x: 4 * FX_ONE, y: 5 * FX_ONE, z: 6 * FX_ONE });
}

#[test]
fn thirty_two_bit_indices_survive() {
    let mut pos = Vec::new();
    for v in [[0.0f32, 0.0, 0.0], [1.0, 0.0, 0.0], [0.0, 1.0, 0.0]] {
        for c in v {
            pos.extend_from_slice(&c.to_bits().to_le_bytes());
        }
    }
    let mut ix = Vec::new();
    for i in [0u32, 1, 2] {
        ix.extend_from_slice(&i.to_le_bytes());
    }
    let doc = skeleton(
        &format!(
            r#"[{{"byteLength": 36, "uri": "data:application/octet-stream;base64,{}"}},
               {{"byteLength": 12, "uri": "data:application/octet-stream;base64,{}"}}]"#,
            b64(&pos),
            b64(&ix)
        ),
        r#"[{"buffer": 0, "byteOffset": 0, "byteLength": 36},
            {"buffer": 1, "byteOffset": 0, "byteLength": 12}]"#,
        r#"[{"bufferView": 0, "componentType": 5126, "count": 3, "type": "VEC3"},
            {"bufferView": 1, "componentType": 5125, "count": 3, "type": "SCALAR"}]"#,
        // Points topology: no flat-normal step, so the indices stay.
        r#"[{"primitives": [{"attributes": {"POSITION": 0}, "mode": 0, "indices": 1}]}]"#,
        r#"[{"nodes": [0]}]"#,
    );
    let vrm = load_vrm(&doc.into_bytes(), &Vec::new()).unwrap();
    let prim = &vrm.meshes[0];
    match prim.indices.as_ref().unwrap() {
        vrm_scene::mesh::IndexData::U32(v) => assert_eq!(v, &vec![0u32, 1, 2]),
        vrm_scene::mesh::IndexData::U16(_) => panic!("expected 32-bit indices"),
    }
}

#[test]
fn first_scene_is_the_default() {
    let doc = skeleton(
        r#"[]"#,
        r#"[]"#,
        r#"[]"#,
        r#"[]"#,
        r#"[{"name": "alpha", "nodes": [0]}, {"name": "beta", "nodes": [1]}]"#,
    )
    .replace(r#""nodes": [{"mesh": 0}, {"name": "other"}]"#, r#""nodes": [{}, {"name": "other"}]"#);
    let vrm = load_vrm(&doc.into_bytes(), &Vec::new()).unwrap();
    assert_eq!(vrm.scenes.len(), 2);
    assert_eq!(vrm.default_scene.as_deref(), Some(b"alpha".as_slice()));
    assert_eq!(vrm.scenes[1].0, b"beta".to_vec());
}

#[test]
fn parser_depth_is_limited() {
    let mut deep = String::new();
    for _ in 0..200 {
        deep.push('[');
    }
    for _ in 0..200 {
        deep.push(']');
    }
    assert!(parse_json(&deep.into_bytes()).is_err());
    let mut shallow = String::new();
    for _ in 0..50 {
        shallow.push('[');
    }
    for _ in 0..50 {
        shallow.push(']');
    }
    assert!(parse_json(&shallow.into_bytes()).is_ok());
}

#[test]
fn subnormal_and_small_floats_truncate_to_zero() {
    assert_eq!(vrm_scene::fixed::fx_of_f32_bits(1), 0);
    assert_eq!(vrm_scene::fixed::fx_of_f32_bits(0x0000_7FFF), 0);
    // The smallest value with a Q47.16 representation: 2^-16.
    assert_eq!(
        vrm_scene::fixed::fx_of_f32_bits(2.0f32.powi(-16).to_bits()),
        1
    );
}
