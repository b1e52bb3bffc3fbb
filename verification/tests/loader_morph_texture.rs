//! Morph-target packing, material variants and textures through the
//! whole load pipeline.

use base64::Engine as _;

use vrm_scene::fixed::FX_ONE;
use vrm_scene::material::Material;
use vrm_scene::scene::load_vrm;
use vrm_scene::texture::{ImageAddressMode, ImageFilterMode, TextureSource};

/// Base64 of n vertices worth of VEC3 float data.
fn vec3_b64(rows: &[[f32; 3]]) -> String {
    let mut bytes = Vec::new();
    for row in rows {
        for c in row {
            bytes.extend_from_slice(&c.to_bits().to_le_bytes());
        }
    }
    base64::engine::general_purpose::STANDARD.encode(&bytes)
}

fn morph_document(names: &str) -> String {
    // One buffer: 3 positions then 3 position deltas; a two-byte image
    // payload sits in a third view.
    let positions = vec3_b64(&[[0.0, 0.0, 0.0], [1.0, 0.0, 0.0], [0.0, 1.0, 0.0]]);
    let deltas = vec3_b64(&[[0.5, 0.0, 0.0], [0.0, 0.5, 0.0], [0.0, 0.0, 0.5]]);
    format!(
        r#"{{
        "buffers": [
            {{"byteLength": 36, "uri": "data:application/gltf-buffer;base64,{positions}"}},
            {{"byteLength": 36, "uri": "data:application/gltf-buffer;base64,{deltas}"}},
            {{"byteLength": 2, "uri": "data:application/octet-stream;base64,qrs="}}
        ],
        "bufferViews": [
            {{"buffer": 0, "byteOffset": 0, "byteLength": 36}},
            {{"buffer": 1, "byteOffset": 0, "byteLength": 36}},
            {{"buffer": 2, "byteOffset": 0, "byteLength": 2}}
        ],
        "accessors": [
            {{"bufferView": 0, "componentType": 5126, "count": 3, "type": "VEC3"}},
            {{"bufferView": 1, "componentType": 5126, "count": 3, "type": "VEC3"}}
        ],
        "samplers": [{{"magFilter": 9729, "minFilter": 9987, "wrapS": 33071, "wrapT": 33648}}],
        "images": [{{"bufferView": 2, "mimeType": "image/png"}}],
        "textures": [{{"source": 0, "sampler": 0}}],
        "materials": [
            {{"normalTexture": {{"index": 0}},
              "extensions": {{"VRMC_materials_mtoon": {{"shadeColorFactor": [0, 1, 0]}}}}}},
            {{"alphaMode": "MASK", "alphaCutoff": 0.25}}
        ],
        "meshes": [{{
            "primitives": [{{
                "attributes": {{"POSITION": 0}},
                "mode": 4,
                "material": 1,
                "targets": [{{"POSITION": 1}}]
            }}],
            "extras": {{"targetNames": [{names}]}}
        }}],
        "nodes": [{{"mesh": 0}}],
        "scenes": [{{"nodes": [0]}}],
        "extensions": {{"VRMC_vrm": {{
            "specVersion": "1.0",
            "humanoid": {{"humanBones": {{"hips": {{"node": 0}}}}}},
            "lookAt": {{
                "type": "expression",
                "offsetFromHeadBone": [0, 0, 0],
                "rangeMapHorizontalInner": {{"inputMaxValue": 1, "outputScale": 1}},
                "rangeMapHorizontalOuter": {{"inputMaxValue": 1, "outputScale": 1}},
                "rangeMapVerticalDown": {{"inputMaxValue": 1, "outputScale": 1}},
                "rangeMapVerticalUp": {{"inputMaxValue": 1, "outputScale": 1}}
            }}
        }}}}
    }}"#,
        positions = positions,
        deltas = deltas,
        names = names,
    )
}

#[test]
fn morph_block_has_one_list_per_target() {
    let vrm = load_vrm(&morph_document("\"smile\"").into_bytes(), &Vec::new()).unwrap();
    let prim = &vrm.meshes[0];
    let block = prim.morph.as_ref().unwrap();
    // One declared target: exactly one list, each as long as the vertex
    // count.
    assert_eq!(block.target_count(), 1);
    assert_eq!(block.vertex_count, 3);
    assert_eq!(block.targets[0].len(), 3);
    assert_eq!(block.at(0, 0).position.x, FX_ONE / 2);
    assert_eq!(block.at(0, 1).position.y, FX_ONE / 2);
    // Matching names are kept.
    assert_eq!(
        prim.morph_target_names.as_ref().unwrap(),
        &vec![b"smile".to_vec()]
    );
}

#[test]
fn mismatched_target_names_are_dropped() {
    // Two names for one target: the names go, the target stays.
    let vrm = load_vrm(
        &morph_document("\"smile\", \"frown\"").into_bytes(),
        &Vec::new(),
    )
    .unwrap();
    let prim = &vrm.meshes[0];
    assert!(prim.morph_target_names.is_none());
    assert_eq!(prim.morph.as_ref().unwrap().target_count(), 1);
}

#[test]
fn default_instance_weights_are_zero() {
    let vrm = load_vrm(&morph_document("\"smile\"").into_bytes(), &Vec::new()).unwrap();
    let scene = &vrm.scenes[0].1;
    let inst = &scene.nodes[0].instances[0];
    assert_eq!(inst.primitive, 0);
    assert_eq!(inst.material, Some(1));
    assert_eq!(inst.morph_weights, vec![0]);
}

#[test]
fn materials_split_by_toon_block() {
    let vrm = load_vrm(&morph_document("\"smile\"").into_bytes(), &Vec::new()).unwrap();
    assert_eq!(vrm.materials.len(), 2);
    match &vrm.materials[0] {
        Material::Toon(m) => {
            assert_eq!(m.shade_color.y, FX_ONE);
        }
        Material::Standard(_) => panic!("material 0 carries a toon block"),
    }
    match &vrm.materials[1] {
        Material::Standard(m) => {
            assert_eq!(
                m.alpha_mode,
                vrm_scene::material::AlphaMode::Mask { cutoff: FX_ONE / 4 }
            );
        }
        Material::Toon(_) => panic!("material 1 has no toon block"),
    }
}

#[test]
fn textures_carry_bytes_srgb_and_sampler() {
    let vrm = load_vrm(&morph_document("\"smile\"").into_bytes(), &Vec::new()).unwrap();
    assert_eq!(vrm.textures.len(), 1);
    let t = &vrm.textures[0];
    // Texture 0 backs the normal map, so it is linear, not sRGB.
    assert!(!t.srgb);
    assert_eq!(t.mime_type.as_deref(), Some(b"image/png".as_slice()));
    match &t.source {
        TextureSource::Bytes(b) => assert_eq!(b, &vec![0xAA, 0xBB]),
        TextureSource::External(_) => panic!("the image sits in a buffer view"),
    }
    assert_eq!(t.sampler.address_mode_u, ImageAddressMode::ClampToEdge);
    assert_eq!(t.sampler.address_mode_v, ImageAddressMode::MirrorRepeat);
    assert_eq!(t.sampler.mag_filter, ImageFilterMode::Linear);
    assert_eq!(t.sampler.min_filter, ImageFilterMode::Linear);
    assert_eq!(t.sampler.mipmap_filter, ImageFilterMode::Linear);
}

#[test]
fn expression_gaze_mode_skips_bone_offsets() {
    // No head bone here at all, so no gaze nodes; the rig still exists.
    let vrm = load_vrm(&morph_document("\"smile\"").into_bytes(), &Vec::new()).unwrap();
    let scene = &vrm.scenes[0].1;
    assert!(scene.gaze.is_none());
    assert_eq!(scene.humanoid.bones.len(), 1);
}

#[test]
fn normal_only_morph_target_keeps_its_deltas() {
    // A target with only NORMAL deltas (accessor 1 reused) still yields a
    // full-length delta list: the missing position stream zero-fills.
    let doc = morph_document("\"smile\"").replace(
        r#""targets": [{"POSITION": 1}]"#,
        r#""targets": [{"NORMAL": 1}]"#,
    );
    let vrm = load_vrm(&doc.into_bytes(), &Vec::new()).unwrap();
    let block = vrm.meshes[0].morph.as_ref().unwrap();
    assert_eq!(block.target_count(), 1);
    assert_eq!(block.targets[0].len(), 3);
    assert_eq!(block.at(0, 0).normal.x, FX_ONE / 2);
    assert_eq!(block.at(0, 0).position.x, 0);
}

#[test]
fn declared_image_mime_beats_data_uri_mime() {
    // The image both declares a mime type and sits in a data URI: the
    // declared one wins; without a declaration the data URI's is used.
    let doc = morph_document("\"smile\"").replace(
        r#"[{"bufferView": 2, "mimeType": "image/png"}]"#,
        r#"[{"uri": "data:image/jpeg;base64,qrs=", "mimeType": "image/png"}]"#,
    );
    let vrm = load_vrm(&doc.into_bytes(), &Vec::new()).unwrap();
    assert_eq!(
        vrm.textures[0].mime_type.as_deref(),
        Some(b"image/png".as_slice())
    );
    let doc2 = morph_document("\"smile\"").replace(
        r#"[{"bufferView": 2, "mimeType": "image/png"}]"#,
        r#"[{"uri": "data:image/jpeg;base64,qrs="}]"#,
    );
    let vrm2 = load_vrm(&doc2.into_bytes(), &Vec::new()).unwrap();
    assert_eq!(
        vrm2.textures[0].mime_type.as_deref(),
        Some(b"image/jpeg".as_slice())
    );
    match &vrm2.textures[0].source {
        vrm_scene::texture::TextureSource::Bytes(b) => assert_eq!(b, &vec![0xAA, 0xBB]),
        vrm_scene::texture::TextureSource::External(_) => panic!("data URI carries the bytes"),
    }
}

#[test]
fn wrong_buffer_mime_type_is_fatal() {
    let doc = morph_document("\"smile\"").replace(
        "data:application/gltf-buffer;base64",
        "data:text/plain;base64",
    );
    let r = load_vrm(&doc.into_bytes(), &Vec::new());
    assert_eq!(
        r.err(),
        Some(vrm_scene::error::VrmError::BufferFormatUnsupported)
    );
}
