//! End-to-end loads of small handcrafted containers.

use base64::Engine as _;

use vrm_scene::document::HumanoidBone;
use vrm_scene::fixed::FX_ONE;
use vrm_scene::geom::FxVec3;
use vrm_scene::mesh::Topology;
use vrm_scene::rig::required_bones;
use vrm_scene::scene::load_vrm;

fn position_buffer_uri() -> String {
    // Three vertices: origin, +x, +y.
    let mut bytes = Vec::new();
    for v in [
        [0.0f32, 0.0, 0.0],
        [1.0, 0.0, 0.0],
        [0.0, 1.0, 0.0],
    ] {
        for c in v {
            bytes.extend_from_slice(&c.to_bits().to_le_bytes());
        }
    }
    let b64 = base64::engine::general_purpose::STANDARD.encode(&bytes);
    format!("data:application/octet-stream;base64,{}", b64)
}

fn bone_entries(with_head: bool) -> String {
    let mut entries = vec![
        ("hips", 0),
        ("spine", 0),
        ("leftUpperLeg", 0),
        ("leftLowerLeg", 0),
        ("leftFoot", 0),
        ("rightUpperLeg", 0),
        ("rightLowerLeg", 0),
        ("rightFoot", 0),
        ("leftUpperArm", 0),
        ("leftLowerArm", 0),
        ("leftHand", 0),
        ("rightUpperArm", 0),
        ("rightLowerArm", 0),
        ("rightHand", 0),
        ("leftEye", 1),
        ("rightEye", 1),
    ];
    if with_head {
        entries.push(("head", 0));
    }
    let parts: Vec<String> = entries
        .iter()
        .map(|(name, node)| format!("\"{}\": {{\"node\": {}}}", name, node))
        .collect();
    parts.join(", ")
}

fn document_json(with_head: bool, indexed: bool) -> String {
    let indices_part = if indexed {
        r#","indices": 1"#
    } else {
        ""
    };
    let accessors = if indexed {
        r#"[
            {"bufferView": 0, "componentType": 5126, "count": 3, "type": "VEC3"},
            {"bufferView": 1, "componentType": 5123, "count": 3, "type": "SCALAR"}
        ]"#
        .to_string()
    } else {
        r#"[{"bufferView": 0, "componentType": 5126, "count": 3, "type": "VEC3"}]"#.to_string()
    };
    let (buffers, buffer_views) = if indexed {
        // A second buffer with the three 16-bit indices 0, 1, 2.
        let ix = base64::engine::general_purpose::STANDARD
            .encode([0u8, 0, 1, 0, 2, 0]);
        (
            format!(
                r#"[{{"byteLength": 36, "uri": "{}"}}, {{"byteLength": 6, "uri": "data:application/octet-stream;base64,{}"}}]"#,
                position_buffer_uri(),
                ix
            ),
            r#"[{"buffer": 0, "byteOffset": 0, "byteLength": 36},
                {"buffer": 1, "byteOffset": 0, "byteLength": 6}]"#
                .to_string(),
        )
    } else {
        (
            format!(r#"[{{"byteLength": 36, "uri": "{}"}}]"#, position_buffer_uri()),
            r#"[{"buffer": 0, "byteOffset": 0, "byteLength": 36}]"#.to_string(),
        )
    };
    format!(
        r#"{{
        "buffers": {buffers},
        "bufferViews": {buffer_views},
        "accessors": {accessors},
        "meshes": [{{"primitives": [{{"attributes": {{"POSITION": 0}}, "mode": 4{indices_part}}}]}}],
        "materials": [
            {{"doubleSided": true,
              "extensions": {{"VRMC_materials_mtoon": {{"shadeColorFactor": [1, 0, 0]}}}}}},
            {{"alphaMode": "BLEND"}}
        ],
        "nodes": [
            {{"name": "parent", "translation": [0, 1, 0], "children": [1]}},
            {{"translation": [0, 0, -1], "mesh": 0}}
        ],
        "scenes": [{{"name": "main", "nodes": [0]}}],
        "scene": 0,
        "extensions": {{"VRMC_vrm": {{
            "specVersion": "1.0",
            "humanoid": {{"humanBones": {{{bones}}}}},
            "lookAt": {{
                "type": "bone",
                "offsetFromHeadBone": [0, 0.5, 0],
                "rangeMapHorizontalInner": {{"inputMaxValue": 1, "outputScale": 1}},
                "rangeMapHorizontalOuter": {{"inputMaxValue": 1, "outputScale": 1}},
                "rangeMapVerticalDown": {{"inputMaxValue": 1, "outputScale": 1}},
                "rangeMapVerticalUp": {{"inputMaxValue": 1, "outputScale": 1}}
            }}
        }}}}
    }}"#,
        buffers = buffers,
        buffer_views = buffer_views,
        accessors = accessors,
        indices_part = indices_part,
        bones = bone_entries(with_head),
    )
}

#[test]
fn load_builds_scene_with_flat_normals() {
    let bytes = document_json(true, false).into_bytes();
    let vrm = load_vrm(&bytes, &Vec::new()).unwrap();
    assert_eq!(vrm.meshes.len(), 1);
    let prim = &vrm.meshes[0];
    assert_eq!(prim.topology, Topology::TriangleList);
    assert_eq!(prim.positions.len(), 3);
    assert_eq!(prim.positions[1], FxVec3 { x: FX_ONE, y: 0, z: 0 });
    // No declared normals on a triangle list: computed flat, one shared
    // face normal equal to the normalized cross product of the edges.
    let normals = prim.normals.as_ref().unwrap();
    assert_eq!(normals.len(), 3);
    let expected = FxVec3 { x: 0, y: 0, z: FX_ONE };
    assert_eq!(normals[0], expected);
    assert_eq!(normals[1], expected);
    assert_eq!(normals[2], expected);
    assert_eq!(vrm.default_scene.as_deref(), Some(b"main".as_slice()));
}

#[test]
fn load_deindexes_before_flat_normals() {
    let bytes = document_json(true, true).into_bytes();
    let vrm = load_vrm(&bytes, &Vec::new()).unwrap();
    let prim = &vrm.meshes[0];
    // The index array (0, 1, 2) is expanded away by the duplication step.
    assert!(prim.indices.is_none());
    assert_eq!(prim.positions.len(), 3);
    assert!(prim.normals.is_some());
}

#[test]
fn world_position_composes_translations() {
    // Parent translated (0, 1, 0), child translated (0, 0, -1): the
    // child's world position is (0, 1, -1).
    let bytes = document_json(true, false).into_bytes();
    let vrm = load_vrm(&bytes, &Vec::new()).unwrap();
    let scene = &vrm.scenes[0].1;
    let parent = &scene.nodes[0];
    let child = &scene.nodes[1];
    assert_eq!(child.parent, Some(0));
    let world = parent.transform.apply_point(child.transform.translation);
    assert_eq!(world, FxVec3 { x: 0, y: FX_ONE, z: -FX_ONE });
}

#[test]
fn loading_twice_is_identical() {
    let bytes = document_json(true, false).into_bytes();
    let a = load_vrm(&bytes, &Vec::new()).unwrap();
    let b = load_vrm(&bytes, &Vec::new()).unwrap();
    assert_eq!(a.scenes.len(), b.scenes.len());
    let sa = &a.scenes[0].1;
    let sb = &b.scenes[0].1;
    assert_eq!(sa.nodes.len(), sb.nodes.len());
    assert_eq!(sa.humanoid.bones, sb.humanoid.bones);
    assert_eq!(a.meshes.len(), b.meshes.len());
    for (pa, pb) in a.meshes.iter().zip(b.meshes.iter()) {
        assert_eq!(pa.positions.len(), pb.positions.len());
        assert_eq!(
            pa.indices.as_ref().map(|i| i.len()),
            pb.indices.as_ref().map(|i| i.len())
        );
        assert_eq!(pa, pb);
    }
}

#[test]
fn complete_bone_table_is_accepted_in_full() {
    let bytes = document_json(true, false).into_bytes();
    let vrm = load_vrm(&bytes, &Vec::new()).unwrap();
    let rig = &vrm.scenes[0].1.humanoid;
    for bone in required_bones() {
        assert!(rig.find(bone).is_some(), "required bone missing: {:?}", bone);
    }
    assert_eq!(rig.find(HumanoidBone::Head), Some(0));
    assert_eq!(rig.find(HumanoidBone::LeftEye), Some(1));
}

#[test]
fn missing_head_keeps_rig_but_drops_gaze_nodes() {
    let bytes = document_json(false, false).into_bytes();
    let vrm = load_vrm(&bytes, &Vec::new()).unwrap();
    let scene = &vrm.scenes[0].1;
    assert!(scene.humanoid.bones.len() >= 15);
    assert!(scene.gaze.is_none());
    // No synthesized nodes beyond the declared ones.
    assert_eq!(scene.nodes.len(), scene.base_node_count);
}

#[test]
fn head_bone_brings_gaze_hierarchy() {
    let bytes = document_json(true, false).into_bytes();
    let vrm = load_vrm(&bytes, &Vec::new()).unwrap();
    let scene = &vrm.scenes[0].1;
    let gaze = scene.gaze.as_ref().unwrap();
    assert_eq!(gaze.head, 0);
    assert!(gaze.pivot >= scene.base_node_count);
    assert!(gaze.target >= scene.base_node_count);
    assert_eq!(scene.nodes[gaze.pivot].parent, Some(gaze.head));
    assert_eq!(scene.nodes[gaze.target].parent, Some(gaze.pivot));
    // The pivot sits at the declared offset from the head bone.
    assert_eq!(
        scene.nodes[gaze.pivot].transform.translation,
        FxVec3 { x: 0, y: FX_ONE / 2, z: 0 }
    );
    // Both eyes wired, the right one with the flipped calibration.
    assert_eq!(gaze.eyes.len(), 2);
    assert_eq!(gaze.eyes[0].eye_node, 1);
    assert_eq!(gaze.eyes[1].eye_node, 1);
    assert!(gaze.eyes[0].transform_look_at.is_some());
}

#[test]
fn bad_bone_indices_are_dropped_not_fatal() {
    let json = document_json(true, false).replace(
        "\"leftEye\": {\"node\": 1}",
        "\"leftEye\": {\"node\": 99}",
    );
    let vrm = load_vrm(&json.into_bytes(), &Vec::new()).unwrap();
    let rig = &vrm.scenes[0].1.humanoid;
    assert!(rig.find(HumanoidBone::LeftEye).is_none());
    assert!(rig.find(HumanoidBone::RightEye).is_some());
}

#[test]
fn missing_extension_block_is_fatal() {
    let json = document_json(true, false).replace("VRMC_vrm", "VRMC_other");
    assert!(load_vrm(&json.into_bytes(), &Vec::new()).is_err());
}

#[test]
fn unsupported_topology_is_fatal() {
    let json = document_json(true, false).replace("\"mode\": 4", "\"mode\": 2");
    let r = load_vrm(&json.into_bytes(), &Vec::new());
    assert_eq!(
        r.err(),
        Some(vrm_scene::error::VrmError::UnsupportedPrimitive { mode: 2 })
    );
}

#[test]
fn loaded_asset_carries_its_document() {
    // The asset owns the document it was assembled from; its declaration
    // lists mirror the JSON arrays.
    let bytes = document_json(true, false).into_bytes();
    let vrm = load_vrm(&bytes, &Vec::new()).unwrap();
    assert_eq!(vrm.document.nodes.len(), 2);
    assert_eq!(vrm.document.meshes.len(), 1);
    assert_eq!(vrm.document.scenes.len(), 1);
    assert_eq!(vrm.document.buffers.len(), 1);
    assert_eq!(vrm.document.accessors.len(), 1);
    assert_eq!(vrm.document.default_scene, Some(0));
    // The resolved buffer bytes are owned by the session.
    assert_eq!(vrm.buffers.len(), 1);
    assert_eq!(vrm.buffers[0].len(), 36);
    // The extension view keeps the bone table in member order.
    assert!(vrm.extensions.extensions.vrm.humanoid.human_bones.len() >= 15);
}

#[test]
fn external_buffer_comes_from_fetched_pairs() {
    let json = document_json(true, false);
    let uri = position_buffer_uri();
    let external = json.replace(&uri, "geometry.bin");
    // Without the fetched bytes the load fails; with them it succeeds.
    let missing = load_vrm(&external.clone().into_bytes(), &Vec::new());
    assert_eq!(missing.err(), Some(vrm_scene::error::VrmError::AssetNotFound));
    let mut payload = Vec::new();
    for v in [[0.0f32, 0.0, 0.0], [1.0, 0.0, 0.0], [0.0, 1.0, 0.0]] {
        for c in v {
            payload.extend_from_slice(&c.to_bits().to_le_bytes());
        }
    }
    let fetched = vec![(b"geometry.bin".to_vec(), payload)];
    let vrm = load_vrm(&external.into_bytes(), &fetched).unwrap();
    assert_eq!(vrm.meshes[0].positions.len(), 3);
}
