//! Mesh assembly pieces and the material resolver.

use vrm_scene::document::{
    ColorFactor, ExtendedMaterial, MaterialDecl, MaterialExtensions, MToonExtensionJson,
    TextureInfo,
};
use vrm_scene::error::VrmError;
use vrm_scene::fixed::FX_ONE;
use vrm_scene::geom::FxVec3;
use vrm_scene::material::{
    alpha_mode, compute_linear_textures, load_material, AlphaMode, CullFace, Material,
};
use vrm_scene::mesh::{
    build_morph_block, compute_flat_normals, duplicate_attribute, get_primitive_topology,
    IndexData, MorphAttributes, Topology,
};

fn base_material() -> MaterialDecl {
    MaterialDecl {
        name: None,
        base_color_factor: ColorFactor { r: FX_ONE, g: FX_ONE, b: FX_ONE, a: FX_ONE },
        base_color_texture: None,
        metallic_factor: FX_ONE,
        roughness_factor: FX_ONE,
        metallic_roughness_texture: None,
        normal_texture: None,
        occlusion_texture: None,
        emissive_factor: FxVec3 { x: 0, y: 0, z: 0 },
        emissive_texture: None,
        double_sided: false,
        alpha_mode: Vec::new(),
        alpha_cutoff: None,
        unlit: false,
    }
}

#[test]
fn topology_mapping() {
    assert_eq!(get_primitive_topology(0), Ok(Topology::Points));
    assert_eq!(get_primitive_topology(1), Ok(Topology::Lines));
    assert_eq!(get_primitive_topology(3), Ok(Topology::LineStrip));
    assert_eq!(get_primitive_topology(4), Ok(Topology::TriangleList));
    assert_eq!(get_primitive_topology(5), Ok(Topology::TriangleStrip));
    assert_eq!(
        get_primitive_topology(2),
        Err(VrmError::UnsupportedPrimitive { mode: 2 })
    );
    assert_eq!(
        get_primitive_topology(6),
        Err(VrmError::UnsupportedPrimitive { mode: 6 })
    );
}

#[test]
fn flat_normals_share_the_face_normal() {
    // A single triangle in the xy plane: all three vertices share the
    // normalized cross product of the edges, which is +z.
    let positions = vec![
        FxVec3 { x: 0, y: 0, z: 0 },
        FxVec3 { x: FX_ONE, y: 0, z: 0 },
        FxVec3 { x: 0, y: FX_ONE, z: 0 },
    ];
    let normals = compute_flat_normals(&positions);
    assert_eq!(normals.len(), 3);
    let expected = FxVec3 { x: 0, y: 0, z: FX_ONE };
    assert_eq!(normals[0], expected);
    assert_eq!(normals[1], expected);
    assert_eq!(normals[2], expected);
}

#[test]
fn flat_normals_of_two_faces() {
    let positions = vec![
        // Face 0 in the xy plane.
        FxVec3 { x: 0, y: 0, z: 0 },
        FxVec3 { x: FX_ONE, y: 0, z: 0 },
        FxVec3 { x: 0, y: FX_ONE, z: 0 },
        // Face 1 in the xz plane, normal -y.
        FxVec3 { x: 0, y: 0, z: 0 },
        FxVec3 { x: FX_ONE, y: 0, z: 0 },
        FxVec3 { x: 0, y: 0, z: FX_ONE },
    ];
    let normals = compute_flat_normals(&positions);
    assert_eq!(normals[0], FxVec3 { x: 0, y: 0, z: FX_ONE });
    assert_eq!(normals[3], FxVec3 { x: 0, y: -FX_ONE, z: 0 });
    assert_eq!(normals[3], normals[4]);
    assert_eq!(normals[4], normals[5]);
}

#[test]
fn morph_block_pads_and_truncates() {
    let delta = MorphAttributes {
        position: FxVec3 { x: 7, y: 8, z: 9 },
        normal: FxVec3 { x: 0, y: 0, z: 0 },
        tangent: FxVec3 { x: 0, y: 0, z: 0 },
    };
    let raw = vec![vec![delta; 2], vec![delta; 5]];
    let block = build_morph_block(&raw, 3);
    assert_eq!(block.target_count(), 2);
    assert_eq!(block.vertex_count, 3);
    for t in 0..2 {
        assert_eq!(block.targets[t].len(), 3);
    }
    // Short target padded with zero deltas; long target truncated.
    assert_eq!(block.at(0, 1), delta);
    assert_eq!(block.at(0, 2).position, FxVec3 { x: 0, y: 0, z: 0 });
    assert_eq!(block.at(1, 2), delta);
}

#[test]
fn duplicate_attribute_expands_by_index() {
    let values = vec![10i64, 20, 30];
    let indices = vec![2u32, 0, 1, 2];
    let out = duplicate_attribute(&values, &indices).unwrap();
    assert_eq!(out, vec![30, 10, 20, 30]);
    let bad = duplicate_attribute(&values, &vec![3u32]);
    assert_eq!(bad, Err(VrmError::AccessorOutOfBounds));
}

#[test]
fn index_widening() {
    let ix = IndexData::U16(vec![1, 2, 3]);
    assert_eq!(ix.to_u32(), vec![1u32, 2, 3]);
    assert_eq!(ix.len(), 3);
}

#[test]
fn alpha_mode_mapping() {
    let mut m = base_material();
    assert_eq!(alpha_mode(&m), AlphaMode::Opaque);
    m.alpha_mode = b"OPAQUE".to_vec();
    assert_eq!(alpha_mode(&m), AlphaMode::Opaque);
    m.alpha_mode = b"BLEND".to_vec();
    assert_eq!(alpha_mode(&m), AlphaMode::Blend);
    m.alpha_mode = b"MASK".to_vec();
    assert_eq!(alpha_mode(&m), AlphaMode::Mask { cutoff: 32768 });
    m.alpha_cutoff = Some(16384);
    assert_eq!(alpha_mode(&m), AlphaMode::Mask { cutoff: 16384 });
}

#[test]
fn material_variants_are_exclusive() {
    // Without a toon block: the standard variant, never the toon one.
    let decl = base_material();
    let std_mat = load_material(&decl, None);
    assert!(matches!(std_mat, Material::Standard(_)));
    // With a toon block: the toon variant, never the standard one, for the
    // same material index.
    let ext = ExtendedMaterial {
        extensions: MaterialExtensions { mtoon: Some(MToonExtensionJson::default()) },
    };
    let toon_mat = load_material(&decl, Some(&ext));
    assert!(matches!(toon_mat, Material::Toon(_)));
    // An extension entry without a toon block still resolves standard.
    let empty_ext = ExtendedMaterial { extensions: MaterialExtensions { mtoon: None } };
    assert!(matches!(load_material(&decl, Some(&empty_ext)), Material::Standard(_)));
}

#[test]
fn cull_mode_follows_double_sided() {
    let mut decl = base_material();
    match load_material(&decl, None) {
        Material::Standard(m) => {
            assert!(!m.double_sided);
            assert_eq!(m.cull_mode, Some(CullFace::Back));
        }
        Material::Toon(_) => panic!("expected the standard variant"),
    }
    decl.double_sided = true;
    match load_material(&decl, None) {
        Material::Standard(m) => {
            assert!(m.double_sided);
            assert_eq!(m.cull_mode, None);
        }
        Material::Toon(_) => panic!("expected the standard variant"),
    }
}

#[test]
fn toon_fields_come_from_the_block() {
    let decl = base_material();
    let mut toon = MToonExtensionJson::default();
    toon.shade_color_factor = FxVec3 { x: FX_ONE, y: 0, z: 0 };
    toon.render_queue_offset_number = -4;
    let ext = ExtendedMaterial { extensions: MaterialExtensions { mtoon: Some(toon) } };
    match load_material(&decl, Some(&ext)) {
        Material::Toon(m) => {
            assert_eq!(m.shade_color, FxVec3 { x: FX_ONE, y: 0, z: 0 });
            assert_eq!(m.depth_bias, -4);
            assert_eq!(m.shading_toony_factor, 58982);
            assert_eq!(m.shading_shift_scale, FX_ONE);
        }
        Material::Standard(_) => panic!("expected the toon variant"),
    }
}

#[test]
fn toon_flags_pack_presence_bits() {
    let decl = base_material();
    let mut toon = MToonExtensionJson::default();
    toon.shade_multiply_texture = Some(TextureInfo { index: 0, tex_coord: 0 });
    let ext = ExtendedMaterial { extensions: MaterialExtensions { mtoon: Some(toon) } };
    match load_material(&decl, Some(&ext)) {
        Material::Toon(m) => {
            let u = m.as_uniform(false);
            // Shade texture bit 16 and the fog bit 1024; opaque alpha adds
            // nothing.
            assert_eq!(u.flags, 16 + 1024);
            assert_eq!(u.alpha_cutoff, 32768);
        }
        Material::Standard(_) => panic!("expected the toon variant"),
    }
}

#[test]
fn linear_textures_are_the_data_maps() {
    let mut with_normal = base_material();
    with_normal.normal_texture = Some(TextureInfo { index: 2, tex_coord: 0 });
    with_normal.metallic_roughness_texture = Some(TextureInfo { index: 0, tex_coord: 0 });
    let plain = base_material();
    let linear = compute_linear_textures(&vec![plain, with_normal], 4);
    assert_eq!(linear, vec![true, false, true, false]);
}
