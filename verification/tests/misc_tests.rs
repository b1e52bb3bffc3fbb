//! Service errors, the debug-mesh text format, blend shapes, data URIs.

use vrm_scene::api::{ApiError, ErrorCategory};
use vrm_scene::blend::{apply_blend_shapes, BlendShape, BlendShapeLibrary};
use vrm_scene::buffers::DataUri;
use vrm_scene::debug_mesh::{read_face, DebugMeshLoader};
use vrm_scene::fixed::FX_ONE;
use vrm_scene::geom::FxVec3;
use vrm_scene::mesh::{MeshPrimitive, MorphTargetBlock, Topology};

#[test]
fn status_codes() {
    assert_eq!(ErrorCategory::Unknown.to_status_code(), 500);
    assert_eq!(ErrorCategory::Cancelled.to_status_code(), 503);
    assert_eq!(ErrorCategory::InvalidArgument.to_status_code(), 400);
    assert_eq!(ErrorCategory::FailedPrecondition.to_status_code(), 400);
    assert_eq!(ErrorCategory::NotFound.to_status_code(), 404);
    assert_eq!(ErrorCategory::PermissionDenied.to_status_code(), 403);
    assert_eq!(ErrorCategory::Unimplemented.to_status_code(), 500);
}

#[test]
fn api_errors_carry_fresh_ids() {
    let e = ApiError::unimplemented();
    assert_eq!(e.category, ErrorCategory::Unimplemented);
    assert_eq!(e.error_code, "unimplemented");
    assert_eq!(e.message, "unimplemented");
    assert_eq!(e.instance_id.chars().count(), 21);
    let u = ApiError::unknown("missing width");
    assert_eq!(u.category, ErrorCategory::Unknown);
    assert_eq!(u.message, "missing width");
    let v = ApiError::unavailable();
    assert_eq!(v.category, ErrorCategory::Cancelled);
    assert_eq!(v.message, "service unavailable");
    // Ids are random: two errors almost surely differ; at least both are
    // 21 characters long.
    assert_eq!(v.instance_id.chars().count(), 21);
}

#[test]
fn data_uri_parse_and_decode() {
    let d = DataUri::parse(b"data:application/octet-stream;base64,AQID").unwrap();
    assert_eq!(d.mime_type, b"application/octet-stream".to_vec());
    assert!(d.base64);
    assert_eq!(d.decode().unwrap(), vec![1, 2, 3]);
    let raw = DataUri::parse(b"data:text/plain,hi").unwrap();
    assert!(!raw.base64);
    assert_eq!(raw.mime_type, b"text/plain".to_vec());
    assert_eq!(raw.decode().unwrap(), b"hi".to_vec());
    assert!(DataUri::parse(b"file:something").is_err());
    assert!(DataUri::parse(b"data:no-comma").is_err());
}

#[test]
fn bad_base64_payload_is_reported() {
    let d = DataUri::parse(b"data:application/octet-stream;base64,@@@@").unwrap();
    assert_eq!(d.decode(), Err(vrm_scene::error::VrmError::Base64Decode));
}

#[test]
fn face_corners_parse() {
    assert_eq!(read_face(&b"3".to_vec()).unwrap(), (3, None, None));
    assert_eq!(read_face(&b"3/7".to_vec()).unwrap(), (3, Some(7), None));
    assert_eq!(read_face(&b"2/3/4".to_vec()).unwrap(), (2, Some(3), Some(4)));
    assert_eq!(read_face(&b"3//9".to_vec()).unwrap(), (3, None, Some(9)));
    // Anything past the third segment is ignored, as the three-way split
    // reads it.
    assert_eq!(read_face(&b"2/3/4/5".to_vec()).unwrap(), (2, Some(3), Some(4)));
    assert!(read_face(&b"x/7/9".to_vec()).is_err());
    assert!(read_face(&b"/7/9".to_vec()).is_err());
    assert!(read_face(&b"".to_vec()).is_err());
}

#[test]
fn debug_mesh_parses_text() {
    let text = b"v 0 0 0\nv 1 0 0\nv 0 1 0\nvn 0 0 1\nf 1//1 2//1 3//1\n".to_vec();
    let loader = DebugMeshLoader::default();
    assert_eq!(loader.extensions(), "dobj");
    let mesh = loader.load(&text).unwrap();
    assert_eq!(mesh.positions.len(), 3);
    assert_eq!(mesh.positions[1], FxVec3 { x: FX_ONE, y: 0, z: 0 });
    assert_eq!(mesh.indices, vec![0, 1, 2]);
    assert!(mesh.has_normals);
    assert_eq!(mesh.normals[0], FxVec3 { x: 0, y: 0, z: FX_ONE });
}

#[test]
fn debug_mesh_without_normals() {
    let text = b"v 0 0 0\nv 1 0 0\nv 0 1 0\nf 1 2 3\n# comment\n".to_vec();
    let mesh = DebugMeshLoader::default().load(&text).unwrap();
    assert!(!mesh.has_normals);
    assert_eq!(mesh.indices.len(), 3);
}

fn bare_mesh() -> MeshPrimitive {
    MeshPrimitive {
        topology: Topology::TriangleList,
        positions: vec![
            FxVec3 { x: 0, y: 0, z: 0 },
            FxVec3 { x: FX_ONE, y: 0, z: 0 },
            FxVec3 { x: 0, y: FX_ONE, z: 0 },
        ],
        normals: None,
        tangents: None,
        uvs: None,
        joints: None,
        weights: None,
        indices: None,
        morph: Some(MorphTargetBlock { vertex_count: 3, targets: Vec::new() }),
        morph_target_names: None,
        material: None,
    }
}

#[test]
fn blend_shape_library_parses() {
    let src = br#"{"blendShapeDatas": [
        {"shapeKeyName": "smile", "blendShapeWeight": 1.0, "vertexCount": 3,
         "elements": [2], "v3_vertices": [{"x": 0.5, "y": 0, "z": 0}]}
    ]}"#
    .to_vec();
    let lib = BlendShapeLibrary::from_slice(&src).unwrap();
    assert_eq!(lib.blend_shapes.len(), 1);
    let s = &lib.blend_shapes[0];
    assert_eq!(s.name, b"smile".to_vec());
    assert_eq!(s.vertex_count, 3);
    assert_eq!(s.indices, vec![2]);
    assert_eq!(s.positions[0], FxVec3 { x: FX_ONE / 2, y: 0, z: 0 });
}

#[test]
fn blend_shapes_replace_morph_targets() {
    let mut mesh = bare_mesh();
    let shapes = vec![
        BlendShape {
            name: b"smile".to_vec(),
            vertex_count: 3,
            weight: FX_ONE,
            indices: vec![2],
            positions: vec![FxVec3 { x: FX_ONE / 2, y: 0, z: 0 }],
        },
        // A shape for a different vertex count is skipped.
        BlendShape {
            name: b"other".to_vec(),
            vertex_count: 5,
            weight: FX_ONE,
            indices: vec![0],
            positions: vec![FxVec3 { x: FX_ONE, y: 0, z: 0 }],
        },
    ];
    apply_blend_shapes(&mut mesh, &shapes);
    let block = mesh.morph.as_ref().unwrap();
    assert_eq!(block.target_count(), 1);
    assert_eq!(block.vertex_count, 3);
    assert_eq!(block.at(0, 2).position, FxVec3 { x: FX_ONE / 2, y: 0, z: 0 });
    assert_eq!(block.at(0, 0).position, FxVec3 { x: 0, y: 0, z: 0 });
    assert_eq!(
        mesh.morph_target_names.as_ref().unwrap(),
        &vec![b"smile".to_vec()]
    );
}
