//! Scene assembly: the node arena, mesh instances, skins, the humanoid rig
//! with its gaze nodes, and the whole load pipeline.
//!
//! Nodes are held in an arena addressed by the declaration index, built in
//! one pass; skins, joints and humanoid bones are wired in a second pass by
//! plain index lookups, so back-references never own nodes.

use vstd::prelude::*;
use vstd::string::StringSliceAdditionalSpecFns;

use crate::accessor::{
    accessor_window_ok, decode_indices, decode_joints, decode_mat4, decode_vec2, decode_vec3,
    decode_vec4, fx_at, le16_at, window_base_spec, window_buffer_spec, window_stride_spec, Mat4Fx,
};
use crate::container::le32_at;
use crate::buffers::{buffer_bytes_spec, resolve_buffers};
use crate::container::{copy_range, parse_container, parse_container_spec, Container};
use crate::document::{
    extract_document, extract_extended_root, vrm_root_ok_of, ExtendedMaterial, ExtendedRoot,
    GltfDocument, HumanoidBone, MeshDecl, NodeDecl, PrimitiveDecl, TransformDecl,
};
use crate::error::VrmError;
use crate::fixed::{clamp_spec, fx_clamp, isqrt_u128, FX_ONE, FX_RAW_MAX};
use crate::gaze::LookAtRangeMap;
use crate::geom::{trs_wf, v3_bounded, v3_len2, FxQuat, FxVec3, Trs};
use crate::json::parse_json;
use crate::material::{compute_linear_textures, load_material, Material};
use crate::mesh::{
    build_morph_block, compute_flat_normals, duplicate_attribute, get_primitive_topology,
    supported_mode, topology_of, MeshPrimitive, MorphAttributes, Topology,
};
use crate::rig::{
    build_humanoid, gaze_is_bone_mode, humanoid_built, EyeGaze, GazeNodes, Humanoid,
    TransformLookAt,
};
use crate::texture::{
    load_texture, texture_ok_spec, texture_selected_ok, EncodedTexture,
};

verus! {

/// The decimal digits of a number, most significant first.
pub open spec fn decimal_of(n: nat) -> Seq<u8>
    decreases n,
{
    if n < 10 {
        seq![(0x30 + n) as u8]
    } else {
        decimal_of(n / 10) + seq![(0x30 + n % 10) as u8]
    }
}

/// Appends the decimal digits of a number.
pub fn push_decimal(out: &mut Vec<u8>, n: usize)
    ensures
        final(out)@ == old(out)@ + decimal_of(n as nat),
    decreases n,
{
    if n >= 10 {
        push_decimal(out, n / 10);
        out.push(0x30 + ((n % 10) as u8));
        proof {
            assert(out@ =~= old(out)@ + decimal_of(n as nat));
        }
    } else {
        out.push(0x30 + (n as u8));
        proof {
            assert(out@ =~= old(out)@ + decimal_of(n as nat));
        }
    }
}

/// Appends a literal's bytes.
pub fn push_str_bytes(out: &mut Vec<u8>, s: &str)
    ensures
        final(out)@ == old(out)@ + s.spec_bytes(),
{
    let b: &[u8] = s.as_bytes();
    let n: usize = b.len();
    let mut i: usize = 0;
    while i < n
        invariant
            i <= n,
            n == b@.len(),
            b@ == s.spec_bytes(),
            out@ == old(out)@ + b@.subrange(0, i as int),
        decreases n - i,
    {
        out.push(b[i]);
        proof {
            assert(out@ =~= old(out)@ + b@.subrange(0, (i + 1) as int));
        }
        i = i + 1;
    }
    proof {
        assert(b@.subrange(0, n as int) =~= b@);
    }
}

/// The label of a mesh primitive.
pub fn primitive_label(mesh_index: usize, primitive_index: usize) -> (r: Vec<u8>)
    ensures
        r@ == "Mesh".spec_bytes() + decimal_of(mesh_index as nat) + "/Primitive".spec_bytes()
            + decimal_of(primitive_index as nat),
{
    let mut out: Vec<u8> = Vec::new();
    push_str_bytes(&mut out, "Mesh");
    push_decimal(&mut out, mesh_index);
    push_str_bytes(&mut out, "/Primitive");
    push_decimal(&mut out, primitive_index);
    out
}

/// The display name a primitive gets: the mesh name (or a fixed default),
/// suffixed with the primitive index when the mesh has several primitives.
pub open spec fn primitive_name_spec(mesh: MeshDecl, primitive_index: int) -> Seq<u8> {
    let stem = match mesh.name {
        Option::Some(n) => n@,
        Option::None => "Mesh".spec_bytes(),
    };
    if mesh.primitives@.len() > 1 {
        stem + ".".spec_bytes() + decimal_of(primitive_index as nat)
    } else {
        stem
    }
}

/// The display name of a primitive: the mesh name, suffixed with the
/// primitive index when the mesh has several primitives.
pub fn primitive_name(mesh: &MeshDecl, primitive_index: usize) -> (r: Vec<u8>)
    ensures
        r@ == primitive_name_spec(*mesh, primitive_index as int),
{
    let mut out: Vec<u8> = Vec::new();
    match &mesh.name {
        Option::Some(n) => {
            let copied = copy_range(n, 0, n.len());
            proof {
                assert(n@.subrange(0, n@.len() as int) =~= n@);
            }
            out = copied;
        },
        Option::None => {
            push_str_bytes(&mut out, "Mesh");
        },
    }
    if mesh.primitives.len() > 1 {
        push_str_bytes(&mut out, ".");
        push_decimal(&mut out, primitive_index);
    }
    out
}

/// The label of a primitive's packed morph targets.
pub fn morph_targets_label(mesh_index: usize, primitive_index: usize) -> (r: Vec<u8>)
    ensures
        r@ == "Mesh".spec_bytes() + decimal_of(mesh_index as nat) + "/Primitive".spec_bytes()
            + decimal_of(primitive_index as nat) + "/MorphTargets".spec_bytes(),
{
    let mut out: Vec<u8> = primitive_label(mesh_index, primitive_index);
    push_str_bytes(&mut out, "/MorphTargets");
    out
}

/// The label of a material, or the default material's label.
pub fn material_label(index: Option<usize>) -> (r: Vec<u8>)
    ensures
        match index {
            Option::Some(i) => r@ == "Material".spec_bytes() + decimal_of(i as nat),
            Option::None => r@ == "MaterialDefault".spec_bytes(),
        },
{
    let mut out: Vec<u8> = Vec::new();
    match index {
        Option::Some(i) => {
            push_str_bytes(&mut out, "Material");
            push_decimal(&mut out, i);
        },
        Option::None => {
            push_str_bytes(&mut out, "MaterialDefault");
        },
    }
    out
}

/// The label of a texture.
pub fn texture_label_index(index: usize) -> (r: Vec<u8>)
    ensures
        r@ == "Texture".spec_bytes() + decimal_of(index as nat),
{
    let mut out: Vec<u8> = Vec::new();
    push_str_bytes(&mut out, "Texture");
    push_decimal(&mut out, index);
    out
}

/// The label of a texture declaration.
pub fn texture_label(index: usize) -> (r: Vec<u8>)
    ensures
        r@ == "Texture".spec_bytes() + decimal_of(index as nat),
{
    texture_label_index(index)
}

/// The label of a scene.
pub fn scene_label(index: usize) -> (r: Vec<u8>)
    ensures
        r@ == "Scene".spec_bytes() + decimal_of(index as nat),
{
    let mut out: Vec<u8> = Vec::new();
    push_str_bytes(&mut out, "Scene");
    push_decimal(&mut out, index);
    out
}

/// The label of a skin.
pub fn skin_label(index: usize) -> (r: Vec<u8>)
    ensures
        r@ == "Skin".spec_bytes() + decimal_of(index as nat),
{
    let mut out: Vec<u8> = Vec::new();
    push_str_bytes(&mut out, "Skin");
    push_decimal(&mut out, index);
    out
}

/// The display name a node gets: its declared name, or its index behind a
/// fixed prefix.
pub open spec fn node_name_spec(node: NodeDecl, index: int) -> Seq<u8> {
    match node.name {
        Option::Some(n) => n@,
        Option::None => "GltfNode".spec_bytes() + decimal_of(index as nat),
    }
}

/// The display name of a node: its declared name, or its index behind a
/// fixed prefix.
pub fn node_name(node: &NodeDecl, index: usize) -> (r: Vec<u8>)
    ensures
        r@ == node_name_spec(*node, index as int),
{
    match &node.name {
        Option::Some(n) => {
            let r = copy_range(n, 0, n.len());
            proof {
                assert(n@.subrange(0, n@.len() as int) =~= n@);
            }
            r
        },
        Option::None => {
            let mut out: Vec<u8> = Vec::new();
            push_str_bytes(&mut out, "GltfNode");
            push_decimal(&mut out, index);
            out
        },
    }
}

/// One mesh primitive instanced under a node.
#[derive(Clone, Debug, PartialEq, Eq)]
pub struct PrimitiveInstance {
    /// Index into the asset's global primitive list.
    pub primitive: usize,
    /// The material it is drawn with.
    pub material: Option<usize>,
    /// This instance's morph weights, one per target.
    pub morph_weights: Vec<i64>,
    /// Display name.
    pub name: Vec<u8>,
}

/// One node of the assembled scene.
#[derive(Clone, Debug, PartialEq, Eq)]
pub struct SceneNode {
    /// Display name.
    pub name: Vec<u8>,
    /// Local transform.
    pub transform: Trs,
    /// Child arena indices.
    pub children: Vec<usize>,
    /// Parent arena index, once wired by traversal.
    pub parent: Option<usize>,
    /// The declared mesh index.
    pub mesh: Option<usize>,
    /// The declared skin index.
    pub skin: Option<usize>,
    /// The declared camera index.
    pub camera: Option<usize>,
    /// Whether this node's camera is the single active one.
    pub camera_active: bool,
    /// The primitive instances under this node.
    pub instances: Vec<PrimitiveInstance>,
}

/// One skin bound to nodes: joints and inverse bind matrices, same length.
#[derive(Clone, Debug, PartialEq, Eq)]
pub struct SkinBinding {
    /// Joint arena indices.
    pub joints: Vec<usize>,
    /// Inverse bind matrices, index-aligned with the joints.
    pub inverse_bind: Vec<Mat4Fx>,
}

impl SkinBinding {
    /// Joint list and matrix list are index-aligned and joints lie in the
    /// node arena.
    pub open spec fn wf(self, node_count: int) -> bool {
        &&& self.joints@.len() == self.inverse_bind@.len()
        &&& forall|j: int| 0 <= j < self.joints@.len() ==> (#[trigger] self.joints@[j]) < node_count
    }
}

/// One assembled scene.
#[derive(Clone, Debug)]
pub struct Scene {
    /// The scene label.
    pub label: Vec<u8>,
    /// The scene name (the label when unnamed).
    pub name: Vec<u8>,
    /// The node arena: the declared nodes first, then synthesized gaze
    /// nodes.
    pub nodes: Vec<SceneNode>,
    /// How many arena entries mirror declared nodes.
    pub base_node_count: usize,
    /// Root node indices of the declared forest.
    pub roots: Vec<usize>,
    /// Skin bindings, index-aligned with the declared skins.
    pub skins: Vec<SkinBinding>,
    /// The humanoid bone mapping.
    pub humanoid: Humanoid,
    /// The gaze hierarchy, present exactly when the head bone is mapped.
    pub gaze: Option<GazeNodes>,
}

/// The assembled asset.
#[derive(Clone, Debug)]
pub struct Vrm {
    /// The typed document the asset was assembled from.
    pub document: GltfDocument,
    /// The document's extension view.
    pub extensions: ExtendedRoot,
    /// The resolved buffer bytes, owned by the load session.
    pub buffers: Vec<Vec<u8>>,
    /// All mesh primitives, in (mesh, primitive) declaration order.
    pub meshes: Vec<MeshPrimitive>,
    /// For each declared mesh, the range (start, count) of its primitives
    /// in the global list.
    pub mesh_ranges: Vec<(usize, usize)>,
    /// Resolved materials, index-aligned with the declarations.
    pub materials: Vec<Material>,
    /// Encoded textures, index-aligned with the declarations.
    pub textures: Vec<EncodedTexture>,
    /// The default scene's name.
    pub default_scene: Option<Vec<u8>>,
    /// Scene name to scene.
    pub scenes: Vec<(Vec<u8>, Scene)>,
}

/// Clamps a vector read from the document into the scalar range.
fn clamp_v3(v: FxVec3) -> (r: FxVec3)
    ensures
        v3_bounded(r),
        r.x == clamp_spec(v.x as int, FX_RAW_MAX as int),
        r.y == clamp_spec(v.y as int, FX_RAW_MAX as int),
        r.z == clamp_spec(v.z as int, FX_RAW_MAX as int),
{
    FxVec3 {
        x: fx_clamp(v.x, FX_RAW_MAX),
        y: fx_clamp(v.y, FX_RAW_MAX),
        z: fx_clamp(v.z, FX_RAW_MAX),
    }
}

/// The square root of a nonnegative scalar, in Q47.16.
fn fx_sqrt(x: i64) -> (r: i64)
    requires
        x >= 0,
    ensures
        r >= 0,
{
    let w: u128 = (x as u128) * 65536;
    let s: u64 = isqrt_u128(w);
    if s > 0x40_0000_0000 {
        0x40_0000_0000
    } else {
        s as i64
    }
}

/// Decomposes a 16-entry column-major matrix into translation, rotation
/// and scale. The translation is the last column, clamped to the scalar
/// range; scale and rotation are recovered best-effort, with the identity
/// rotation for degenerate bases.
pub fn trs_from_matrix(entries: &Vec<i64>) -> (r: Trs)
    requires
        entries@.len() == 16,
    ensures
        trs_wf(r),
        r.translation.x == clamp_spec(entries@[12] as int, FX_RAW_MAX as int),
        r.translation.y == clamp_spec(entries@[13] as int, FX_RAW_MAX as int),
        r.translation.z == clamp_spec(entries@[14] as int, FX_RAW_MAX as int),
{
    let translation = clamp_v3(FxVec3 { x: entries[12], y: entries[13], z: entries[14] });
    let c0 = clamp_v3(FxVec3 { x: entries[0], y: entries[1], z: entries[2] });
    let c1 = clamp_v3(FxVec3 { x: entries[4], y: entries[5], z: entries[6] });
    let c2 = clamp_v3(FxVec3 { x: entries[8], y: entries[9], z: entries[10] });
    let s0: i64 = norm_q16(c0);
    let s1: i64 = norm_q16(c1);
    let s2: i64 = norm_q16(c2);
    let scale = clamp_v3(FxVec3 { x: s0, y: s1, z: s2 });
    let rotation: FxQuat = if s0 > 0 && s1 > 0 && s2 > 0 {
        let r0 = div_v3(c0, s0);
        let r1 = div_v3(c1, s1);
        let r2 = div_v3(c2, s2);
        quat_from_basis(r0, r1, r2)
    } else {
        FxQuat::identity()
    };
    Trs { translation, rotation, scale }
}

/// The length of a vector, in Q47.16.
fn norm_q16(v: FxVec3) -> (r: i64)
    requires
        v3_bounded(v),
    ensures
        r >= 0,
{
    let len2: u128 = v3_len2(v);
    let s: u64 = isqrt_u128(len2);
    if s > 0x40_0000_0000 {
        0x40_0000_0000
    } else {
        s as i64
    }
}

/// Divides each component by a positive scalar (components of a basis
/// column divided by its length).
fn div_v3(v: FxVec3, d: i64) -> (r: FxVec3)
    requires
        v3_bounded(v),
        d > 0,
    ensures
        v3_bounded(r),
{
    FxVec3 {
        x: crate::fixed::fx_div(v.x, d),
        y: crate::fixed::fx_div(v.y, d),
        z: crate::fixed::fx_div(v.z, d),
    }
}

/// Recovers a quaternion from an orthonormal basis, by the standard
/// trace-branch construction, clamped into the quaternion range.
fn quat_from_basis(c0: FxVec3, c1: FxVec3, c2: FxVec3) -> (r: FxQuat)
    requires
        v3_bounded(c0),
        v3_bounded(c1),
        v3_bounded(c2),
    ensures
        crate::geom::quat_wf(r),
{
    let m00: i64 = c0.x;
    let m01: i64 = c1.x;
    let m02: i64 = c2.x;
    let m10: i64 = c0.y;
    let m11: i64 = c1.y;
    let m12: i64 = c2.y;
    let m20: i64 = c0.z;
    let m21: i64 = c1.z;
    let m22: i64 = c2.z;
    let trace: i64 = crate::fixed::fx_add(crate::fixed::fx_add(m00, m11), m22);
    let q: FxQuat;
    if trace > 0 {
        let s: i64 = fx_sqrt(crate::fixed::fx_add(trace, FX_ONE));
        if s == 0 {
            return FxQuat::identity();
        }
        let w: i64 = s / 2;
        let d: i64 = crate::fixed::fx_mul(s, 2 * FX_ONE);
        if d == 0 {
            return FxQuat::identity();
        }
        q = FxQuat {
            x: crate::fixed::fx_div(crate::fixed::fx_sub(m21, m12), d),
            y: crate::fixed::fx_div(crate::fixed::fx_sub(m02, m20), d),
            z: crate::fixed::fx_div(crate::fixed::fx_sub(m10, m01), d),
            w,
        };
    } else if m00 > m11 && m00 > m22 {
        let s: i64 = fx_sqrt(
            crate::fixed::fx_add(
                crate::fixed::fx_sub(crate::fixed::fx_sub(FX_ONE, m11), m22),
                m00,
            ),
        );
        if s == 0 {
            return FxQuat::identity();
        }
        let d: i64 = crate::fixed::fx_mul(s, 2 * FX_ONE);
        if d == 0 {
            return FxQuat::identity();
        }
        q = FxQuat {
            x: s / 2,
            y: crate::fixed::fx_div(crate::fixed::fx_add(m01, m10), d),
            z: crate::fixed::fx_div(crate::fixed::fx_add(m02, m20), d),
            w: crate::fixed::fx_div(crate::fixed::fx_sub(m21, m12), d),
        };
    } else if m11 > m22 {
        let s: i64 = fx_sqrt(
            crate::fixed::fx_add(
                crate::fixed::fx_sub(crate::fixed::fx_sub(FX_ONE, m00), m22),
                m11,
            ),
        );
        if s == 0 {
            return FxQuat::identity();
        }
        let d: i64 = crate::fixed::fx_mul(s, 2 * FX_ONE);
        if d == 0 {
            return FxQuat::identity();
        }
        q = FxQuat {
            x: crate::fixed::fx_div(crate::fixed::fx_add(m01, m10), d),
            y: s / 2,
            z: crate::fixed::fx_div(crate::fixed::fx_add(m12, m21), d),
            w: crate::fixed::fx_div(crate::fixed::fx_sub(m02, m20), d),
        };
    } else {
        let s: i64 = fx_sqrt(
            crate::fixed::fx_add(
                crate::fixed::fx_sub(crate::fixed::fx_sub(FX_ONE, m00), m11),
                m22,
            ),
        );
        if s == 0 {
            return FxQuat::identity();
        }
        let d: i64 = crate::fixed::fx_mul(s, 2 * FX_ONE);
        if d == 0 {
            return FxQuat::identity();
        }
        q = FxQuat {
            x: crate::fixed::fx_div(crate::fixed::fx_add(m02, m20), d),
            y: crate::fixed::fx_div(crate::fixed::fx_add(m12, m21), d),
            z: s / 2,
            w: crate::fixed::fx_div(crate::fixed::fx_sub(m10, m01), d),
        };
    }
    q.clamped()
}

/// What normalizing a declared transform promises: the decomposed form is
/// kept (clamped into range); a matrix keeps its translation column, with
/// rotation and scale recovered best-effort.
pub open spec fn node_transform_ok(decl: TransformDecl, r: Trs) -> bool {
    &&& trs_wf(r)
    &&& match decl {
        TransformDecl::Decomposed { translation, rotation, scale } => {
            &&& r.translation.x == clamp_spec(translation.x as int, FX_RAW_MAX as int)
            &&& r.translation.y == clamp_spec(translation.y as int, FX_RAW_MAX as int)
            &&& r.translation.z == clamp_spec(translation.z as int, FX_RAW_MAX as int)
            &&& r.rotation == crate::geom::quat_clamp_spec(rotation)
            &&& r.scale.x == clamp_spec(scale.x as int, FX_RAW_MAX as int)
            &&& r.scale.y == clamp_spec(scale.y as int, FX_RAW_MAX as int)
            &&& r.scale.z == clamp_spec(scale.z as int, FX_RAW_MAX as int)
        },
        TransformDecl::Matrix { entries } => entries@.len() == 16 ==> {
            &&& r.translation.x == clamp_spec(entries@[12] as int, FX_RAW_MAX as int)
            &&& r.translation.y == clamp_spec(entries@[13] as int, FX_RAW_MAX as int)
            &&& r.translation.z == clamp_spec(entries@[14] as int, FX_RAW_MAX as int)
        },
    }
}

/// The local transform a declaration denotes, normalized to translation,
/// rotation, scale, all within the representable ranges.
pub fn node_transform(decl: &TransformDecl) -> (r: Trs)
    ensures
        trs_wf(r),
        node_transform_ok(*decl, r),
{
    match decl {
        TransformDecl::Decomposed { translation, rotation, scale } => Trs {
            translation: clamp_v3(*translation),
            rotation: rotation.clamped(),
            scale: clamp_v3(*scale),
        },
        TransformDecl::Matrix { entries } => {
            if entries.len() == 16 {
                trs_from_matrix(entries)
            } else {
                Trs::identity()
            }
        },
    }
}

/// Whether an accessor index names a readable VEC3 float accessor.
pub open spec fn vec3_attr_ok(doc: GltfDocument, buffers: Seq<Vec<u8>>, a: int) -> bool {
    &&& 0 <= a < doc.accessors@.len()
    &&& doc.accessors@[a].component_type == 5126
    &&& doc.accessors@[a].kind == crate::document::ElementKind::Vec3
    &&& accessor_window_ok(doc, buffers, doc.accessors@[a], 12)
}

/// The vectors a readable VEC3 float accessor holds.
pub open spec fn vec3_attr_seq(doc: GltfDocument, buffers: Seq<Vec<u8>>, a: int) -> Seq<FxVec3>
    recommends
        vec3_attr_ok(doc, buffers, a),
{
    let acc = doc.accessors@[a];
    let buf = (buffers[window_buffer_spec(doc, acc)])@;
    let base = window_base_spec(doc, acc);
    let stride = window_stride_spec(doc, acc, 12);
    Seq::new(
        acc.count as nat,
        |i: int|
            FxVec3 {
                x: fx_at(buf, base + i * stride) as i64,
                y: fx_at(buf, base + i * stride + 4) as i64,
                z: fx_at(buf, base + i * stride + 8) as i64,
            },
    )
}

/// The positions a primitive declares: the decoded POSITION accessor, or
/// empty when it is absent or unreadable (a skipped attribute).
pub open spec fn prim_positions_spec(
    doc: GltfDocument,
    buffers: Seq<Vec<u8>>,
    prim: PrimitiveDecl,
) -> Seq<FxVec3> {
    match prim.position {
        Option::Some(a) => if vec3_attr_ok(doc, buffers, a as int) {
            vec3_attr_seq(doc, buffers, a as int)
        } else {
            Seq::<FxVec3>::empty()
        },
        Option::None => Seq::<FxVec3>::empty(),
    }
}

/// Whether an accessor index names a readable VEC2 float accessor.
pub open spec fn vec2_attr_ok(doc: GltfDocument, buffers: Seq<Vec<u8>>, a: int) -> bool {
    &&& 0 <= a < doc.accessors@.len()
    &&& doc.accessors@[a].component_type == 5126
    &&& doc.accessors@[a].kind == crate::document::ElementKind::Vec2
    &&& accessor_window_ok(doc, buffers, doc.accessors@[a], 8)
}

/// The pairs a readable VEC2 float accessor holds.
pub open spec fn vec2_attr_seq(doc: GltfDocument, buffers: Seq<Vec<u8>>, a: int) -> Seq<(i64, i64)>
    recommends
        vec2_attr_ok(doc, buffers, a),
{
    let acc = doc.accessors@[a];
    let buf = (buffers[window_buffer_spec(doc, acc)])@;
    let base = window_base_spec(doc, acc);
    let stride = window_stride_spec(doc, acc, 8);
    Seq::new(
        acc.count as nat,
        |i: int| (fx_at(buf, base + i * stride) as i64, fx_at(buf, base + i * stride + 4) as i64),
    )
}

/// Whether an accessor index names a readable VEC4 float accessor.
pub open spec fn vec4_attr_ok(doc: GltfDocument, buffers: Seq<Vec<u8>>, a: int) -> bool {
    &&& 0 <= a < doc.accessors@.len()
    &&& doc.accessors@[a].component_type == 5126
    &&& doc.accessors@[a].kind == crate::document::ElementKind::Vec4
    &&& accessor_window_ok(doc, buffers, doc.accessors@[a], 16)
}

/// The 4-vectors a readable VEC4 float accessor holds.
pub open spec fn vec4_attr_seq(doc: GltfDocument, buffers: Seq<Vec<u8>>, a: int) -> Seq<
    crate::geom::FxVec4,
>
    recommends
        vec4_attr_ok(doc, buffers, a),
{
    let acc = doc.accessors@[a];
    let buf = (buffers[window_buffer_spec(doc, acc)])@;
    let base = window_base_spec(doc, acc);
    let stride = window_stride_spec(doc, acc, 16);
    Seq::new(
        acc.count as nat,
        |i: int|
            crate::geom::FxVec4 {
                x: fx_at(buf, base + i * stride) as i64,
                y: fx_at(buf, base + i * stride + 4) as i64,
                z: fx_at(buf, base + i * stride + 8) as i64,
                w: fx_at(buf, base + i * stride + 12) as i64,
            },
    )
}

/// Whether an accessor index names a readable VEC4 joint-index accessor.
pub open spec fn joints_attr_ok(doc: GltfDocument, buffers: Seq<Vec<u8>>, a: int) -> bool {
    &&& 0 <= a < doc.accessors@.len()
    &&& doc.accessors@[a].kind == crate::document::ElementKind::Vec4
    &&& ((doc.accessors@[a].component_type == 5121 && accessor_window_ok(
        doc,
        buffers,
        doc.accessors@[a],
        4,
    )) || (doc.accessors@[a].component_type == 5123 && accessor_window_ok(
        doc,
        buffers,
        doc.accessors@[a],
        8,
    )))
}

/// The joint quadruples a readable joint accessor holds, widened to u16.
pub open spec fn joints_attr_seq(doc: GltfDocument, buffers: Seq<Vec<u8>>, a: int) -> Seq<[u16; 4]>
    recommends
        joints_attr_ok(doc, buffers, a),
{
    let acc = doc.accessors@[a];
    let buf = (buffers[window_buffer_spec(doc, acc)])@;
    let base = window_base_spec(doc, acc);
    if acc.component_type == 5121 {
        let stride = window_stride_spec(doc, acc, 4);
        Seq::new(
            acc.count as nat,
            |i: int|
                [
                    buf[base + i * stride] as u16,
                    buf[base + i * stride + 1] as u16,
                    buf[base + i * stride + 2] as u16,
                    buf[base + i * stride + 3] as u16,
                ],
        )
    } else {
        let stride = window_stride_spec(doc, acc, 8);
        Seq::new(
            acc.count as nat,
            |i: int|
                [
                    le16_at(buf, base + i * stride) as u16,
                    le16_at(buf, base + i * stride + 2) as u16,
                    le16_at(buf, base + i * stride + 4) as u16,
                    le16_at(buf, base + i * stride + 6) as u16,
                ],
        )
    }
}

/// Expansion of an attribute list by an index list.
pub open spec fn expand_by<T>(s: Seq<T>, ix: Seq<u32>) -> Seq<T> {
    Seq::new(ix.len(), |k: int| s[ix[k] as int])
}

/// The final value of one optional attribute stream: the decoded stream
/// when it is readable and matches the vertex count, index-expanded on the
/// de-index path.
pub open spec fn prim_final_attr<T>(
    doc: GltfDocument,
    buffers: Seq<Vec<u8>>,
    prim: PrimitiveDecl,
    s: Seq<T>,
) -> Seq<T> {
    if prim_needs_flat(doc, buffers, prim) && prim_has_indices(doc, buffers, prim) {
        expand_by(s, prim_indices_seq(doc, buffers, prim))
    } else {
        s
    }
}

/// Bytes per component of an index width.
pub open spec fn index_elem_bytes(component_type: u32) -> int {
    if component_type == 5121 {
        1
    } else if component_type == 5123 {
        2
    } else {
        4
    }
}

/// Whether an accessor index names a readable index accessor.
pub open spec fn index_attr_ok(doc: GltfDocument, buffers: Seq<Vec<u8>>, a: int) -> bool {
    &&& 0 <= a < doc.accessors@.len()
    &&& doc.accessors@[a].kind == crate::document::ElementKind::Scalar
    &&& crate::accessor::index_width_ok(doc.accessors@[a].component_type)
    &&& accessor_window_ok(
        doc,
        buffers,
        doc.accessors@[a],
        index_elem_bytes(doc.accessors@[a].component_type),
    )
}

/// The index values a readable index accessor holds, widened to u32.
pub open spec fn index_attr_seq(doc: GltfDocument, buffers: Seq<Vec<u8>>, a: int) -> Seq<u32>
    recommends
        index_attr_ok(doc, buffers, a),
{
    let acc = doc.accessors@[a];
    let ct = acc.component_type;
    let buf = (buffers[window_buffer_spec(doc, acc)])@;
    let base = window_base_spec(doc, acc);
    let stride = window_stride_spec(doc, acc, index_elem_bytes(ct));
    Seq::new(
        acc.count as nat,
        |k: int|
            if ct == 5121 {
                buf[base + k * stride] as u32
            } else if ct == 5123 {
                le16_at(buf, base + k * stride) as u32
            } else {
                le32_at(buf, base + k * stride) as u32
            },
    )
}

/// An index accessor that names a real scalar index stream but whose
/// window is unusable: the one fatal index condition.
pub open spec fn prim_indices_fatal(
    doc: GltfDocument,
    buffers: Seq<Vec<u8>>,
    prim: PrimitiveDecl,
) -> bool {
    match prim.indices {
        Option::Some(a) => {
            &&& 0 <= (a as int) < doc.accessors@.len()
            &&& doc.accessors@[a as int].kind == crate::document::ElementKind::Scalar
            &&& crate::accessor::index_width_ok(doc.accessors@[a as int].component_type)
            &&& !accessor_window_ok(
                doc,
                buffers,
                doc.accessors@[a as int],
                index_elem_bytes(doc.accessors@[a as int].component_type),
            )
        },
        Option::None => false,
    }
}

/// Whether the primitive carries readable index data.
pub open spec fn prim_has_indices(
    doc: GltfDocument,
    buffers: Seq<Vec<u8>>,
    prim: PrimitiveDecl,
) -> bool {
    match prim.indices {
        Option::Some(a) => index_attr_ok(doc, buffers, a as int),
        Option::None => false,
    }
}

/// The primitive's index values.
pub open spec fn prim_indices_seq(
    doc: GltfDocument,
    buffers: Seq<Vec<u8>>,
    prim: PrimitiveDecl,
) -> Seq<u32>
    recommends
        prim_has_indices(doc, buffers, prim),
{
    index_attr_seq(doc, buffers, prim.indices->Some_0 as int)
}

/// Whether the primitive carries readable tangents matching its vertices.
pub open spec fn prim_has_tangents(
    doc: GltfDocument,
    buffers: Seq<Vec<u8>>,
    prim: PrimitiveDecl,
) -> bool {
    match prim.tangent {
        Option::Some(a) => vec4_attr_ok(doc, buffers, a as int) && doc.accessors@[a as int].count
            == prim_positions_spec(doc, buffers, prim).len(),
        Option::None => false,
    }
}

/// Whether the primitive carries readable texture coordinates matching
/// its vertices.
pub open spec fn prim_has_uvs(
    doc: GltfDocument,
    buffers: Seq<Vec<u8>>,
    prim: PrimitiveDecl,
) -> bool {
    match prim.texcoord0 {
        Option::Some(a) => vec2_attr_ok(doc, buffers, a as int) && doc.accessors@[a as int].count
            == prim_positions_spec(doc, buffers, prim).len(),
        Option::None => false,
    }
}

/// Whether the primitive carries readable joint indices matching its
/// vertices.
pub open spec fn prim_has_joints(
    doc: GltfDocument,
    buffers: Seq<Vec<u8>>,
    prim: PrimitiveDecl,
) -> bool {
    match prim.joints0 {
        Option::Some(a) => joints_attr_ok(doc, buffers, a as int) && doc.accessors@[a as int].count
            == prim_positions_spec(doc, buffers, prim).len(),
        Option::None => false,
    }
}

/// Whether the primitive carries readable joint weights matching its
/// vertices.
pub open spec fn prim_has_weights(
    doc: GltfDocument,
    buffers: Seq<Vec<u8>>,
    prim: PrimitiveDecl,
) -> bool {
    match prim.weights0 {
        Option::Some(a) => vec4_attr_ok(doc, buffers, a as int) && doc.accessors@[a as int].count
            == prim_positions_spec(doc, buffers, prim).len(),
        Option::None => false,
    }
}

/// Whether the primitive carries readable normals matching its vertices.
pub open spec fn prim_has_normals(
    doc: GltfDocument,
    buffers: Seq<Vec<u8>>,
    prim: PrimitiveDecl,
) -> bool {
    match prim.normal {
        Option::Some(a) => vec3_attr_ok(doc, buffers, a as int) && doc.accessors@[a as int].count
            == prim_positions_spec(doc, buffers, prim).len(),
        Option::None => false,
    }
}

/// Whether the flat-normal step runs: a triangle list without normals.
pub open spec fn prim_needs_flat(
    doc: GltfDocument,
    buffers: Seq<Vec<u8>>,
    prim: PrimitiveDecl,
) -> bool {
    prim.mode == 4 && !prim_has_normals(doc, buffers, prim)
}

/// The de-index step meets an index outside the positions: fatal.
pub open spec fn prim_dedup_fatal(
    doc: GltfDocument,
    buffers: Seq<Vec<u8>>,
    prim: PrimitiveDecl,
) -> bool {
    &&& prim_needs_flat(doc, buffers, prim)
    &&& prim_has_indices(doc, buffers, prim)
    &&& exists|k: int|
        0 <= k < prim_indices_seq(doc, buffers, prim).len() && #[trigger] prim_indices_seq(
            doc,
            buffers,
            prim,
        )[k] >= prim_positions_spec(doc, buffers, prim).len()
}

/// The one fatal condition of primitive assembly besides its topology.
pub open spec fn prim_fatal(doc: GltfDocument, buffers: Seq<Vec<u8>>, prim: PrimitiveDecl) -> bool {
    ||| !supported_mode(prim.mode)
    ||| prim_indices_fatal(doc, buffers, prim)
    ||| prim_dedup_fatal(doc, buffers, prim)
}

/// The deltas one optional accessor contributes (empty when absent or
/// unreadable).
pub open spec fn delta_seq_spec(
    doc: GltfDocument,
    buffers: Seq<Vec<u8>>,
    acc: Option<usize>,
) -> Seq<FxVec3> {
    match acc {
        Option::Some(a) => if vec3_attr_ok(doc, buffers, a as int) {
            vec3_attr_seq(doc, buffers, a as int)
        } else {
            Seq::<FxVec3>::empty()
        },
        Option::None => Seq::<FxVec3>::empty(),
    }
}

/// One morph target's raw delta records: the three streams zipped to the
/// longest, shorter streams zero-filled.
pub open spec fn morph_target_raw_spec(
    doc: GltfDocument,
    buffers: Seq<Vec<u8>>,
    target: crate::document::MorphTargetDecl,
) -> Seq<MorphAttributes> {
    let pos = delta_seq_spec(doc, buffers, target.position);
    let nrm = delta_seq_spec(doc, buffers, target.normal);
    let tan = delta_seq_spec(doc, buffers, target.tangent);
    let n = if pos.len() >= nrm.len() && pos.len() >= tan.len() {
        pos.len()
    } else if nrm.len() >= tan.len() {
        nrm.len()
    } else {
        tan.len()
    };
    Seq::new(
        n,
        |v: int|
            MorphAttributes {
                position: if v < pos.len() {
                    pos[v]
                } else {
                    FxVec3 { x: 0, y: 0, z: 0 }
                },
                normal: if v < nrm.len() {
                    nrm[v]
                } else {
                    FxVec3 { x: 0, y: 0, z: 0 }
                },
                tangent: if v < tan.len() {
                    tan[v]
                } else {
                    FxVec3 { x: 0, y: 0, z: 0 }
                },
            },
    )
}

/// The index data keeps the declared width: 8- and 16-bit streams live in
/// 16-bit data, 32-bit streams in 32-bit data.
pub open spec fn index_data_width_ok(component_type: u32, ix: crate::mesh::IndexData) -> bool {
    &&& ((component_type == 5121 || component_type == 5123) ==> ix is U16)
    &&& (component_type == 5125 ==> ix is U32)
}

/// The positions an assembled primitive ends with: the declared ones,
/// expanded by the index list when the flat-normal step de-indexes.
pub open spec fn prim_final_positions(
    doc: GltfDocument,
    buffers: Seq<Vec<u8>>,
    prim: PrimitiveDecl,
) -> Seq<FxVec3> {
    let pos = prim_positions_spec(doc, buffers, prim);
    if prim_needs_flat(doc, buffers, prim) && prim_has_indices(doc, buffers, prim) {
        let ix = prim_indices_seq(doc, buffers, prim);
        Seq::new(ix.len(), |k: int| pos[ix[k] as int])
    } else {
        pos
    }
}

/// Assembles one mesh primitive from its decoded attribute arrays, per the
/// declared topology:
/// - a topology outside the supported set is fatal for the primitive;
/// - when normals are absent and the topology is the triangle list, the
///   vertices are first de-indexed and flat normals are computed (the one
///   vertex-count-changing step);
/// - morph deltas are packed into the block keyed by the vertex count, and
///   target names are kept only when their count matches the target count;
/// - tangents come from the declared accessor alone; a mesh without them
///   loads with fewer attributes, and generating them stays with the
///   rendering collaborator.
/// Everything primitive assembly promises of its result.
pub open spec fn primitive_assembled(
    doc: GltfDocument,
    buffers: Seq<Vec<u8>>,
    mesh: MeshDecl,
    prim: PrimitiveDecl,
    p: MeshPrimitive,
) -> bool {
    &&& p.wf()
    &&& p.topology == topology_of(prim.mode)
    &&& p.positions@ == prim_final_positions(doc, buffers, prim)
    &&& p.material == prim.material
    &&& (match p.morph {
        Option::Some(m) => m.targets@.len() == prim.targets@.len(),
        Option::None => prim.targets@.len() == 0,
    })
    &&& ((p.morph_target_names is Some) <==> (prim.targets@.len() > 0 && mesh.target_names@.len()
        == prim.targets@.len()))
    &&& (p.topology == Topology::TriangleList ==> p.normals is Some)
    &&& (prim_needs_flat(doc, buffers, prim) ==> p.indices is None && (match p.normals {
        Option::Some(n) => crate::mesh::flat_normals_ok(p.positions@, n@),
        Option::None => false,
    }))
    &&& (!prim_needs_flat(doc, buffers, prim) ==> match p.indices {
        Option::Some(ix) => {
            &&& prim_has_indices(doc, buffers, prim)
            &&& ix.len_spec() == prim_indices_seq(doc, buffers, prim).len()
            &&& (forall|k: int|
                0 <= k < ix.len_spec() ==> #[trigger] ix.index_spec(k) == prim_indices_seq(
                    doc,
                    buffers,
                    prim,
                )[k])
            &&& index_data_width_ok(
                doc.accessors@[prim.indices->Some_0 as int].component_type,
                ix,
            )
        },
        Option::None => !prim_has_indices(doc, buffers, prim),
    })
    &&& (prim_has_normals(doc, buffers, prim) ==> match p.normals {
        Option::Some(nv) => nv@ == vec3_attr_seq(doc, buffers, prim.normal->Some_0 as int),
        Option::None => false,
    })
    &&& (!prim_has_normals(doc, buffers, prim) && !prim_needs_flat(doc, buffers, prim)
        ==> p.normals is None)
    &&& (match p.tangents {
        Option::Some(v) => prim_has_tangents(doc, buffers, prim) && v@ == prim_final_attr(
            doc,
            buffers,
            prim,
            vec4_attr_seq(doc, buffers, prim.tangent->Some_0 as int),
        ),
        Option::None => !prim_has_tangents(doc, buffers, prim),
    })
    &&& (match p.uvs {
        Option::Some(v) => prim_has_uvs(doc, buffers, prim) && v@ == prim_final_attr(
            doc,
            buffers,
            prim,
            vec2_attr_seq(doc, buffers, prim.texcoord0->Some_0 as int),
        ),
        Option::None => !prim_has_uvs(doc, buffers, prim),
    })
    &&& (match p.joints {
        Option::Some(v) => prim_has_joints(doc, buffers, prim) && v@ == prim_final_attr(
            doc,
            buffers,
            prim,
            joints_attr_seq(doc, buffers, prim.joints0->Some_0 as int),
        ),
        Option::None => !prim_has_joints(doc, buffers, prim),
    })
    &&& (match p.weights {
        Option::Some(v) => prim_has_weights(doc, buffers, prim) && v@ == prim_final_attr(
            doc,
            buffers,
            prim,
            vec4_attr_seq(doc, buffers, prim.weights0->Some_0 as int),
        ),
        Option::None => !prim_has_weights(doc, buffers, prim),
    })
    &&& (match p.morph {
        Option::Some(m) => forall|t: int, v: int|
            0 <= t < m.targets@.len() && 0 <= v < m.vertex_count
                ==> #[trigger] (m.targets@[t])@[v] == (if v < morph_target_raw_spec(
                doc,
                buffers,
                prim.targets@[t],
            ).len() {
                morph_target_raw_spec(doc, buffers, prim.targets@[t])[v]
            } else {
                MorphAttributes::zero_spec()
            }),
        Option::None => true,
    })
}

/// The declared positions of a primitive, empty when absent or
/// unreadable.
fn decode_prim_positions(doc: &GltfDocument, buffers: &Vec<Vec<u8>>, prim: &PrimitiveDecl) -> (r:
    Vec<FxVec3>)
    ensures
        r@ == prim_positions_spec(*doc, buffers@, *prim),
        crate::mesh::positions_bounded(r@),
{
    match prim.position {
        Option::Some(acc_idx) => {
            if acc_idx < doc.accessors.len() {
                match decode_vec3(doc, buffers, &doc.accessors[acc_idx]) {
                    Result::Ok(v) => {
                        proof {
                            assert(vec3_attr_ok(*doc, buffers@, acc_idx as int));
                            assert(v@ =~= vec3_attr_seq(*doc, buffers@, acc_idx as int));
                        }
                        v
                    },
                    Result::Err(_) => Vec::new(),
                }
            } else {
                Vec::new()
            }
        },
        Option::None => Vec::new(),
    }
}

/// The declared normals of a primitive, kept only when their count equals
/// the vertex count.
fn decode_prim_normals(
    doc: &GltfDocument,
    buffers: &Vec<Vec<u8>>,
    prim: &PrimitiveDecl,
    vertex_count: usize,
) -> (r: Option<Vec<FxVec3>>)
    requires
        vertex_count == prim_positions_spec(*doc, buffers@, *prim).len(),
    ensures
        (r is Some) <==> prim_has_normals(*doc, buffers@, *prim),
        match r {
            Option::Some(v) => v@.len() == vertex_count && v@ == vec3_attr_seq(
                *doc,
                buffers@,
                prim.normal->Some_0 as int,
            ),
            Option::None => true,
        },
{
    match prim.normal {
        Option::Some(acc_idx) => {
            if acc_idx < doc.accessors.len() {
                match decode_vec3(doc, buffers, &doc.accessors[acc_idx]) {
                    Result::Ok(v) => {
                        if v.len() == vertex_count {
                            proof {
                                assert(vec3_attr_ok(*doc, buffers@, acc_idx as int));
                                assert(v@ =~= vec3_attr_seq(*doc, buffers@, acc_idx as int));
                            }
                            Option::Some(v)
                        } else {
                            Option::None
                        }
                    },
                    Result::Err(_) => Option::None,
                }
            } else {
                Option::None
            }
        },
        Option::None => Option::None,
    }
}

/// The deltas one optional accessor contributes.
fn decode_delta_seq(doc: &GltfDocument, buffers: &Vec<Vec<u8>>, acc: Option<usize>) -> (r: Vec<
    FxVec3,
>)
    ensures
        r@ == delta_seq_spec(*doc, buffers@, acc),
{
    match acc {
        Option::Some(acc_idx) => {
            if acc_idx < doc.accessors.len() {
                match decode_vec3(doc, buffers, &doc.accessors[acc_idx]) {
                    Result::Ok(v) => {
                        proof {
                            assert(vec3_attr_ok(*doc, buffers@, acc_idx as int));
                            assert(v@ =~= vec3_attr_seq(*doc, buffers@, acc_idx as int));
                        }
                        v
                    },
                    Result::Err(_) => Vec::new(),
                }
            } else {
                Vec::new()
            }
        },
        Option::None => Vec::new(),
    }
}

/// One morph target's raw delta records: the three streams zipped to the
/// longest, shorter streams zero-filled.
fn decode_morph_target(
    doc: &GltfDocument,
    buffers: &Vec<Vec<u8>>,
    target: &crate::document::MorphTargetDecl,
) -> (r: Vec<MorphAttributes>)
    ensures
        r@ == morph_target_raw_spec(*doc, buffers@, *target),
{
    let pos_deltas: Vec<FxVec3> = decode_delta_seq(doc, buffers, target.position);
    let nrm_deltas: Vec<FxVec3> = decode_delta_seq(doc, buffers, target.normal);
    let tan_deltas: Vec<FxVec3> = decode_delta_seq(doc, buffers, target.tangent);
    let mut list: Vec<MorphAttributes> = Vec::new();
    let mut n_all: usize = pos_deltas.len();
    if nrm_deltas.len() > n_all {
        n_all = nrm_deltas.len();
    }
    if tan_deltas.len() > n_all {
        n_all = tan_deltas.len();
    }
    let mut v: usize = 0;
    while v < n_all
        invariant
            v <= n_all,
            list@.len() == v,
            n_all == morph_target_raw_spec(*doc, buffers@, *target).len(),
            pos_deltas@ == delta_seq_spec(*doc, buffers@, target.position),
            nrm_deltas@ == delta_seq_spec(*doc, buffers@, target.normal),
            tan_deltas@ == delta_seq_spec(*doc, buffers@, target.tangent),
            forall|u: int|
                0 <= u < v ==> #[trigger] list@[u] == morph_target_raw_spec(
                    *doc,
                    buffers@,
                    *target,
                )[u],
        decreases n_all - v,
    {
        let p = if v < pos_deltas.len() {
            pos_deltas[v]
        } else {
            FxVec3 { x: 0, y: 0, z: 0 }
        };
        let n = if v < nrm_deltas.len() {
            nrm_deltas[v]
        } else {
            FxVec3 { x: 0, y: 0, z: 0 }
        };
        let tg = if v < tan_deltas.len() {
            tan_deltas[v]
        } else {
            FxVec3 { x: 0, y: 0, z: 0 }
        };
        list.push(MorphAttributes { position: p, normal: n, tangent: tg });
        v = v + 1;
    }
    list
}

/// The declared tangents of a primitive, kept only when their count
/// equals the vertex count.
fn decode_prim_tangents(
    doc: &GltfDocument,
    buffers: &Vec<Vec<u8>>,
    prim: &PrimitiveDecl,
    vertex_count: usize,
) -> (r: Option<Vec<crate::geom::FxVec4>>)
    requires
        vertex_count == prim_positions_spec(*doc, buffers@, *prim).len(),
    ensures
        (r is Some) <==> prim_has_tangents(*doc, buffers@, *prim),
        match r {
            Option::Some(v) => v@.len() == vertex_count && v@ == vec4_attr_seq(
                *doc,
                buffers@,
                prim.tangent->Some_0 as int,
            ),
            Option::None => true,
        },
{
    match prim.tangent {
        Option::Some(acc_idx) => {
            if acc_idx < doc.accessors.len() {
                match decode_vec4(doc, buffers, &doc.accessors[acc_idx]) {
                    Result::Ok(v) => {
                        if v.len() == vertex_count {
                            proof {
                                assert(vec4_attr_ok(*doc, buffers@, acc_idx as int));
                                assert(v@ =~= vec4_attr_seq(*doc, buffers@, acc_idx as int));
                            }
                            Option::Some(v)
                        } else {
                            Option::None
                        }
                    },
                    Result::Err(_) => Option::None,
                }
            } else {
                Option::None
            }
        },
        Option::None => Option::None,
    }
}

/// The declared texture coordinates of a primitive, kept only when their
/// count equals the vertex count.
fn decode_prim_uvs(
    doc: &GltfDocument,
    buffers: &Vec<Vec<u8>>,
    prim: &PrimitiveDecl,
    vertex_count: usize,
) -> (r: Option<Vec<(i64, i64)>>)
    requires
        vertex_count == prim_positions_spec(*doc, buffers@, *prim).len(),
    ensures
        (r is Some) <==> prim_has_uvs(*doc, buffers@, *prim),
        match r {
            Option::Some(v) => v@.len() == vertex_count && v@ == vec2_attr_seq(
                *doc,
                buffers@,
                prim.texcoord0->Some_0 as int,
            ),
            Option::None => true,
        },
{
    match prim.texcoord0 {
        Option::Some(acc_idx) => {
            if acc_idx < doc.accessors.len() {
                match decode_vec2(doc, buffers, &doc.accessors[acc_idx]) {
                    Result::Ok(v) => {
                        if v.len() == vertex_count {
                            proof {
                                assert(vec2_attr_ok(*doc, buffers@, acc_idx as int));
                                assert(v@ =~= vec2_attr_seq(*doc, buffers@, acc_idx as int));
                            }
                            Option::Some(v)
                        } else {
                            Option::None
                        }
                    },
                    Result::Err(_) => Option::None,
                }
            } else {
                Option::None
            }
        },
        Option::None => Option::None,
    }
}

/// The declared joint indices of a primitive, kept only when their count
/// equals the vertex count.
fn decode_prim_joints(
    doc: &GltfDocument,
    buffers: &Vec<Vec<u8>>,
    prim: &PrimitiveDecl,
    vertex_count: usize,
) -> (r: Option<Vec<[u16; 4]>>)
    requires
        vertex_count == prim_positions_spec(*doc, buffers@, *prim).len(),
    ensures
        (r is Some) <==> prim_has_joints(*doc, buffers@, *prim),
        match r {
            Option::Some(v) => v@.len() == vertex_count && v@ == joints_attr_seq(
                *doc,
                buffers@,
                prim.joints0->Some_0 as int,
            ),
            Option::None => true,
        },
{
    match prim.joints0 {
        Option::Some(acc_idx) => {
            if acc_idx < doc.accessors.len() {
                match decode_joints(doc, buffers, &doc.accessors[acc_idx]) {
                    Result::Ok(v) => {
                        if v.len() == vertex_count {
                            proof {
                                assert(joints_attr_ok(*doc, buffers@, acc_idx as int));
                                assert forall|i: int| 0 <= i < v@.len() implies #[trigger] v@[i]
                                    == joints_attr_seq(*doc, buffers@, acc_idx as int)[i] by {
                                    assert((v@[i])@ =~= (joints_attr_seq(
                                        *doc,
                                        buffers@,
                                        acc_idx as int,
                                    )[i])@);
                                }
                                assert(v@ =~= joints_attr_seq(*doc, buffers@, acc_idx as int));
                            }
                            Option::Some(v)
                        } else {
                            Option::None
                        }
                    },
                    Result::Err(_) => Option::None,
                }
            } else {
                Option::None
            }
        },
        Option::None => Option::None,
    }
}

/// The declared joint weights of a primitive, kept only when their count
/// equals the vertex count.
fn decode_prim_weights(
    doc: &GltfDocument,
    buffers: &Vec<Vec<u8>>,
    prim: &PrimitiveDecl,
    vertex_count: usize,
) -> (r: Option<Vec<crate::geom::FxVec4>>)
    requires
        vertex_count == prim_positions_spec(*doc, buffers@, *prim).len(),
    ensures
        (r is Some) <==> prim_has_weights(*doc, buffers@, *prim),
        match r {
            Option::Some(v) => v@.len() == vertex_count && v@ == vec4_attr_seq(
                *doc,
                buffers@,
                prim.weights0->Some_0 as int,
            ),
            Option::None => true,
        },
{
    match prim.weights0 {
        Option::Some(acc_idx) => {
            if acc_idx < doc.accessors.len() {
                match decode_vec4(doc, buffers, &doc.accessors[acc_idx]) {
                    Result::Ok(v) => {
                        if v.len() == vertex_count {
                            proof {
                                assert(vec4_attr_ok(*doc, buffers@, acc_idx as int));
                                assert(v@ =~= vec4_attr_seq(*doc, buffers@, acc_idx as int));
                            }
                            Option::Some(v)
                        } else {
                            Option::None
                        }
                    },
                    Result::Err(_) => Option::None,
                }
            } else {
                Option::None
            }
        },
        Option::None => Option::None,
    }
}

/// The declared index data of a primitive: absent when no readable index
/// stream is named, fatal when a named index stream's window is unusable.
fn decode_prim_indices(doc: &GltfDocument, buffers: &Vec<Vec<u8>>, prim: &PrimitiveDecl) -> (r:
    Result<Option<crate::mesh::IndexData>, VrmError>)
    ensures
        (r is Err) <==> prim_indices_fatal(*doc, buffers@, *prim),
        match r {
            Result::Ok(Option::Some(ix)) => {
                &&& prim_has_indices(*doc, buffers@, *prim)
                &&& ix.len_spec() == prim_indices_seq(*doc, buffers@, *prim).len()
                &&& (forall|k: int|
                    0 <= k < ix.len_spec() ==> #[trigger] ix.index_spec(k) == prim_indices_seq(
                        *doc,
                        buffers@,
                        *prim,
                    )[k])
                &&& index_data_width_ok(
                    doc.accessors@[prim.indices->Some_0 as int].component_type,
                    ix,
                )
            },
            Result::Ok(Option::None) => !prim_has_indices(*doc, buffers@, *prim),
            Result::Err(e) => e == VrmError::AccessorOutOfBounds,
        },
{
    match prim.indices {
        Option::Some(acc_idx) => {
            if acc_idx < doc.accessors.len() {
                match decode_indices(doc, buffers, &doc.accessors[acc_idx]) {
                    Result::Ok(Option::Some(ix)) => {
                        proof {
                            assert(index_attr_ok(*doc, buffers@, acc_idx as int));
                            assert forall|k: int| 0 <= k < ix.len_spec() implies #[trigger] ix.index_spec(
                                k,
                            ) == prim_indices_seq(*doc, buffers@, *prim)[k] by {
                                assert(ix.index_spec(k) == ix.index_spec(k));
                            }
                        }
                        Result::Ok(Option::Some(ix))
                    },
                    Result::Ok(Option::None) => Result::Ok(Option::None),
                    Result::Err(e) => Result::Err(e),
                }
            } else {
                Result::Ok(Option::None)
            }
        },
        Option::None => Result::Ok(Option::None),
    }
}

#[verifier::rlimit(100)]
pub fn assemble_primitive(
    doc: &GltfDocument,
    buffers: &Vec<Vec<u8>>,
    mesh: &MeshDecl,
    prim: &PrimitiveDecl,
) -> (r: Result<MeshPrimitive, VrmError>)
    ensures
        (r is Ok) <==> !prim_fatal(*doc, buffers@, *prim),
        match r {
            Result::Ok(p) => primitive_assembled(*doc, buffers@, *mesh, *prim, p),
            Result::Err(e) => e == (VrmError::UnsupportedPrimitive { mode: prim.mode }) || e
                == VrmError::AccessorOutOfBounds,
        },
{
    let topology: Topology = match get_primitive_topology(prim.mode) {
        Result::Ok(t) => t,
        Result::Err(e) => {
            return Result::Err(e);
        },
    };
    let positions: Vec<FxVec3> = decode_prim_positions(doc, buffers, prim);
    let vertex_count: usize = positions.len();
    let normals: Option<Vec<FxVec3>> = decode_prim_normals(doc, buffers, prim, vertex_count);
    // The remaining vertex attributes are lenient: an unreadable one is
    // skipped, and one whose count disagrees with the vertices is skipped.
    let tangents: Option<Vec<crate::geom::FxVec4>> = decode_prim_tangents(
        doc,
        buffers,
        prim,
        vertex_count,
    );
    let uvs: Option<Vec<(i64, i64)>> = decode_prim_uvs(doc, buffers, prim, vertex_count);
    let joints: Option<Vec<[u16; 4]>> = decode_prim_joints(doc, buffers, prim, vertex_count);
    let weights: Option<Vec<crate::geom::FxVec4>> = decode_prim_weights(
        doc,
        buffers,
        prim,
        vertex_count,
    );
    let indices: Option<crate::mesh::IndexData> = match decode_prim_indices(doc, buffers, prim) {
        Result::Ok(ix) => ix,
        Result::Err(e) => {
            return Result::Err(e);
        },
    };
    // Morph targets: each target's three delta streams are zipped to the
    // longest of them, the shorter streams zero-filled.
    let mut raw_targets: Vec<Vec<MorphAttributes>> = Vec::new();
    let mut t: usize = 0;
    while t < prim.targets.len()
        invariant
            t <= prim.targets@.len(),
            raw_targets@.len() == t,
            forall|q: int|
                0 <= q < t ==> (#[trigger] raw_targets@[q])@ == morph_target_raw_spec(
                    *doc,
                    buffers@,
                    prim.targets@[q],
                ),
        decreases prim.targets@.len() - t,
    {
        let list = decode_morph_target(doc, buffers, &prim.targets[t]);
        raw_targets.push(list);
        t = t + 1;
    }
    let mut out = MeshPrimitive {
        topology,
        positions,
        normals,
        tangents,
        uvs,
        joints,
        weights,
        indices,
        morph: Option::None,
        morph_target_names: Option::None,
        material: prim.material,
    };
    // Missing normals on a triangle list: de-index, then flat normals.
    let needs_flat: bool = match (&out.normals, &out.topology) {
        (Option::None, Topology::TriangleList) => true,
        _ => false,
    };
    proof {
        assert(needs_flat == prim_needs_flat(*doc, buffers@, *prim));
    }
    if needs_flat {
        match &out.indices {
            Option::Some(ix) => {
                let wide: Vec<u32> = ix.to_u32();
                proof {
                    let iseq = prim_indices_seq(*doc, buffers@, *prim);
                    assert(wide@.len() == iseq.len());
                    assert forall|k: int| 0 <= k < wide@.len() implies #[trigger] wide@[k]
                        == iseq[k] by {
                        assert(wide@[k] == ix.index_spec(k));
                        assert(ix.index_spec(k) == iseq[k]);
                    }
                    assert(wide@ =~= iseq);
                }
                let new_positions = match duplicate_attribute(&out.positions, &wide) {
                    Result::Ok(v) => v,
                    Result::Err(e) => {
                        proof {
                            assert(prim_dedup_fatal(*doc, buffers@, *prim));
                        }
                        return Result::Err(e);
                    },
                };
                proof {
                    assert(new_positions@ =~= prim_final_positions(*doc, buffers@, *prim));
                }
                let new_tangents: Option<Vec<crate::geom::FxVec4>> = match &out.tangents {
                    Option::Some(tv) => match duplicate_attribute(tv, &wide) {
                        Result::Ok(v) => {
                            proof {
                                assert(v@ =~= expand_by(tv@, wide@));
                            }
                            Option::Some(v)
                        },
                        Result::Err(_) => {
                            proof {
                                assert(false);
                            }
                            Option::None
                        },
                    },
                    Option::None => Option::None,
                };
                let new_uvs: Option<Vec<(i64, i64)>> = match &out.uvs {
                    Option::Some(uv) => match duplicate_attribute(uv, &wide) {
                        Result::Ok(v) => {
                            proof {
                                assert(v@ =~= expand_by(uv@, wide@));
                            }
                            Option::Some(v)
                        },
                        Result::Err(_) => {
                            proof {
                                assert(false);
                            }
                            Option::None
                        },
                    },
                    Option::None => Option::None,
                };
                let new_joints: Option<Vec<[u16; 4]>> = match &out.joints {
                    Option::Some(jv) => match duplicate_attribute(jv, &wide) {
                        Result::Ok(v) => {
                            proof {
                                assert(v@ =~= expand_by(jv@, wide@));
                            }
                            Option::Some(v)
                        },
                        Result::Err(_) => {
                            proof {
                                assert(false);
                            }
                            Option::None
                        },
                    },
                    Option::None => Option::None,
                };
                let new_weights: Option<Vec<crate::geom::FxVec4>> = match &out.weights {
                    Option::Some(wv) => match duplicate_attribute(wv, &wide) {
                        Result::Ok(v) => {
                            proof {
                                assert(v@ =~= expand_by(wv@, wide@));
                            }
                            Option::Some(v)
                        },
                        Result::Err(_) => {
                            proof {
                                assert(false);
                            }
                            Option::None
                        },
                    },
                    Option::None => Option::None,
                };
                out.positions = new_positions;
                out.tangents = new_tangents;
                out.uvs = new_uvs;
                out.joints = new_joints;
                out.weights = new_weights;
                out.indices = Option::None;
            },
            Option::None => {},
        }
        let computed = compute_flat_normals(&out.positions);
        out.normals = Option::Some(computed);
    }
    let final_count: usize = out.positions.len();
    if prim.targets.len() > 0 {
        let block = build_morph_block(&raw_targets, final_count);
        let names_match: bool = mesh.target_names.len() == prim.targets.len();
        if names_match {
            let mut names: Vec<Vec<u8>> = Vec::new();
            let mut k: usize = 0;
            while k < mesh.target_names.len()
                invariant
                    k <= mesh.target_names@.len(),
                    names@.len() == k,
                decreases mesh.target_names@.len() - k,
            {
                let nm = &mesh.target_names[k];
                names.push(copy_range(nm, 0, nm.len()));
                k = k + 1;
            }
            out.morph_target_names = Option::Some(names);
        }
        out.morph = Option::Some(block);
    }
    Result::Ok(out)
}


/// The number of morph targets of a primitive.
pub open spec fn target_count_of(p: MeshPrimitive) -> int {
    match p.morph {
        Option::Some(m) => m.targets@.len() as int,
        Option::None => 0,
    }
}

/// Every instance points into the primitive list and carries one weight
/// per morph target.
pub open spec fn instances_wf(node: SceneNode, meshes: Seq<MeshPrimitive>) -> bool {
    forall|k: int|
        0 <= k < node.instances@.len() ==> (#[trigger] node.instances@[k]).primitive < meshes.len()
            && node.instances@[k].morph_weights@.len() == target_count_of(
            meshes[node.instances@[k].primitive as int],
        )
}

/// Every declared primitive is free of fatal conditions.
pub open spec fn meshes_fatal_free(doc: GltfDocument, buffers: Seq<Vec<u8>>) -> bool {
    forall|m: int, k: int|
        0 <= m < doc.meshes@.len() && 0 <= k < doc.meshes@[m].primitives@.len() ==> !prim_fatal(
            doc,
            buffers,
            #[trigger] (doc.meshes@[m].primitives@)[k],
        )
}

/// Mesh m's primitives all sit assembled at their range positions.
pub open spec fn mesh_prims_assembled(
    doc: GltfDocument,
    buffers: Seq<Vec<u8>>,
    meshes: Seq<MeshPrimitive>,
    ranges: Seq<(usize, usize)>,
    m: int,
) -> bool {
    forall|k: int|
        0 <= k < doc.meshes@[m].primitives@.len() ==> primitive_assembled(
            doc,
            buffers,
            doc.meshes@[m],
            #[trigger] (doc.meshes@[m].primitives@)[k],
            meshes[ranges[m].0 + k],
        )
}

/// The ranges partition the global primitive list in declaration order.
pub open spec fn ranges_partition(
    doc: GltfDocument,
    meshes: Seq<MeshPrimitive>,
    ranges: Seq<(usize, usize)>,
) -> bool {
    &&& ranges.len() == doc.meshes@.len()
    &&& forall|m: int|
        0 <= m < ranges.len() ==> (#[trigger] ranges[m]).1 == doc.meshes@[m].primitives@.len()
    &&& forall|m: int|
        0 <= m < ranges.len() ==> (#[trigger] ranges[m]).0 == (if m == 0 {
            0
        } else {
            ranges[m - 1].0 + ranges[m - 1].1
        })
    &&& forall|m: int| 0 <= m < ranges.len() ==> (#[trigger] ranges[m]).0 + ranges[m].1 <= meshes.len()
    &&& meshes.len() == (if ranges.len() == 0 {
        0
    } else {
        ranges[ranges.len() - 1].0 + ranges[ranges.len() - 1].1
    })
}

/// Assembles every declared mesh's primitives into one global list, one
/// entry per (mesh, primitive) pair in declaration order, and records each
/// mesh's (start, count) range in it. Succeeds exactly when no primitive
/// is fatal, and then every entry carries the assembly guarantees.
#[verifier::rlimit(100)]
pub fn assemble_meshes(doc: &GltfDocument, buffers: &Vec<Vec<u8>>) -> (r: Result<
    (Vec<MeshPrimitive>, Vec<(usize, usize)>),
    VrmError,
>)
    ensures
        (r is Ok) <==> meshes_fatal_free(*doc, buffers@),
        match r {
            Result::Err(e) => (e matches VrmError::UnsupportedPrimitive { .. }) || e
                == VrmError::AccessorOutOfBounds,
            Result::Ok((meshes, ranges)) => {
                &&& ranges_partition(*doc, meshes@, ranges@)
                &&& forall|p: int| 0 <= p < meshes@.len() ==> (#[trigger] meshes@[p]).wf()
                &&& forall|m: int|
                    0 <= m < ranges@.len() ==> mesh_prims_assembled(
                        *doc,
                        buffers@,
                        meshes@,
                        ranges@,
                        m,
                    )
            },
        },
{
    let mut meshes: Vec<MeshPrimitive> = Vec::new();
    let mut ranges: Vec<(usize, usize)> = Vec::new();
    let mut m: usize = 0;
    while m < doc.meshes.len()
        invariant
            m <= doc.meshes@.len(),
            ranges@.len() == m,
            forall|i: int|
                0 <= i < m ==> (#[trigger] ranges@[i]).1 == doc.meshes@[i].primitives@.len(),
            forall|i: int|
                0 <= i < m ==> (#[trigger] ranges@[i]).0 == (if i == 0 {
                    0
                } else {
                    ranges@[i - 1].0 + ranges@[i - 1].1
                }),
            forall|i: int|
                0 <= i < m ==> (#[trigger] ranges@[i]).0 + ranges@[i].1 <= meshes@.len(),
            meshes@.len() == (if m == 0 {
                0
            } else {
                ranges@[m - 1].0 + ranges@[m - 1].1
            }),
            forall|p: int| 0 <= p < meshes@.len() ==> (#[trigger] meshes@[p]).wf(),
            forall|i: int|
                0 <= i < m ==> mesh_prims_assembled(*doc, buffers@, meshes@, ranges@, i),
            forall|i: int, k: int|
                0 <= i < m && 0 <= k < doc.meshes@[i].primitives@.len() ==> !prim_fatal(
                    *doc,
                    buffers@,
                    #[trigger] (doc.meshes@[i].primitives@)[k],
                ),
        decreases doc.meshes@.len() - m,
    {
        let mesh = &doc.meshes[m];
        let start: usize = meshes.len();
        let ghost meshes_before = meshes@;
        let mut k: usize = 0;
        while k < mesh.primitives.len()
            invariant
                k <= mesh.primitives@.len(),
                meshes@.len() == start + k,
                (m as int) < doc.meshes@.len(),
                mesh == doc.meshes@[m as int],
                meshes@.subrange(0, start as int) == meshes_before,
                forall|p: int| 0 <= p < meshes@.len() ==> (#[trigger] meshes@[p]).wf(),
                forall|q: int|
                    0 <= q < k ==> primitive_assembled(
                        *doc,
                        buffers@,
                        doc.meshes@[m as int],
                        #[trigger] (doc.meshes@[m as int].primitives@)[q],
                        meshes@[start + q],
                    ),
                forall|q: int|
                    0 <= q < k ==> !prim_fatal(
                        *doc,
                        buffers@,
                        #[trigger] (doc.meshes@[m as int].primitives@)[q],
                    ),
            decreases mesh.primitives@.len() - k,
        {
            match assemble_primitive(doc, buffers, mesh, &mesh.primitives[k]) {
                Result::Ok(p) => {
                    let ghost prev = meshes@;
                    meshes.push(p);
                    proof {
                        assert(meshes@.subrange(0, start as int) =~= prev.subrange(
                            0,
                            start as int,
                        ));
                    }
                },
                Result::Err(e) => {
                    proof {
                        assert(prim_fatal(
                            *doc,
                            buffers@,
                            (doc.meshes@[m as int].primitives@)[k as int],
                        ));
                        assert(!meshes_fatal_free(*doc, buffers@));
                    }
                    return Result::Err(e);
                },
            }
            k = k + 1;
        }
        let ghost ranges_before = ranges@;
        ranges.push((start, k));
        proof {
            assert forall|i: int|
                0 <= i <= m implies mesh_prims_assembled(
                *doc,
                buffers@,
                meshes@,
                ranges@,
                i,
            ) by {
                if i < m as int {
                    assert(ranges@[i] == ranges_before[i]);
                    assert(mesh_prims_assembled(*doc, buffers@, meshes_before, ranges_before, i));
                    assert forall|q: int|
                        0 <= q < doc.meshes@[i].primitives@.len() implies primitive_assembled(
                        *doc,
                        buffers@,
                        doc.meshes@[i],
                        #[trigger] (doc.meshes@[i].primitives@)[q],
                        meshes@[ranges@[i].0 + q],
                    ) by {
                        assert(primitive_assembled(
                            *doc,
                            buffers@,
                            doc.meshes@[i],
                            (doc.meshes@[i].primitives@)[q],
                            meshes_before[ranges_before[i].0 + q],
                        ));
                        assert(ranges_before[i].0 + q < start);
                        assert(meshes@[ranges_before[i].0 + q] == meshes@.subrange(
                            0,
                            start as int,
                        )[ranges_before[i].0 + q]);
                    }
                }
            }
        }
        m = m + 1;
    }
    Result::Ok((meshes, ranges))
}

/// One built primitive instance of a node: the global primitive index,
/// the primitive's material, the instance's morph weights (declared base
/// weights, zero-filled per target) and its display name.
pub open spec fn instance_built(
    doc: GltfDocument,
    meshes: Seq<MeshPrimitive>,
    ranges: Seq<(usize, usize)>,
    mesh_idx: int,
    k: int,
    inst: PrimitiveInstance,
) -> bool {
    let global = ranges[mesh_idx].0 + k;
    &&& inst.primitive == global
    &&& inst.material == meshes[global].material
    &&& inst.name@ == primitive_name_spec(doc.meshes@[mesh_idx], k)
    &&& inst.morph_weights@.len() == target_count_of(meshes[global])
    &&& forall|w: int|
        0 <= w < inst.morph_weights@.len() ==> #[trigger] inst.morph_weights@[w] == (if w
            < doc.meshes@[mesh_idx].weights@.len() {
            doc.meshes@[mesh_idx].weights@[w]
        } else {
            0i64
        })
}

/// Everything building one arena node promises.
pub open spec fn node_built(
    doc: GltfDocument,
    meshes: Seq<MeshPrimitive>,
    ranges: Seq<(usize, usize)>,
    parents: Seq<Option<usize>>,
    active: Option<usize>,
    i: int,
    n: SceneNode,
) -> bool {
    let decl = doc.nodes@[i];
    &&& n.name@ == node_name_spec(decl, i)
    &&& node_transform_ok(decl.transform, n.transform)
    &&& n.children@ == decl.children@
    &&& n.parent == parents[i]
    &&& n.mesh == decl.mesh
    &&& n.skin == decl.skin
    &&& n.camera == decl.camera
    &&& n.camera_active == (decl.camera is Some && active == Option::Some(i as usize))
    &&& match decl.mesh {
        Option::Some(m) => if (m as int) < doc.meshes@.len() {
            &&& n.instances@.len() == ranges[m as int].1
            &&& forall|k: int|
                0 <= k < n.instances@.len() ==> instance_built(
                    doc,
                    meshes,
                    ranges,
                    m as int,
                    k,
                    #[trigger] n.instances@[k],
                )
        } else {
            n.instances@.len() == 0
        },
        Option::None => n.instances@.len() == 0,
    }
}

/// Builds the node arena, one entry per declared node, with the given
/// parent wiring and active-camera choice: names, transforms, child
/// lists, component references and per-instance morph weights all follow
/// their declarations.
#[verifier::rlimit(100)]
pub fn build_nodes(
    doc: &GltfDocument,
    meshes: &Vec<MeshPrimitive>,
    ranges: &Vec<(usize, usize)>,
    parents: &Vec<Option<usize>>,
    active_camera_node: Option<usize>,
) -> (r: Vec<SceneNode>)
    requires
        ranges@.len() == doc.meshes@.len(),
        parents@.len() == doc.nodes@.len(),
        forall|m: int|
            0 <= m < ranges@.len() ==> (#[trigger] ranges@[m]).0 + ranges@[m].1 <= meshes@.len(),
    ensures
        r@.len() == doc.nodes@.len(),
        forall|i: int| 0 <= i < r@.len() ==> trs_wf((#[trigger] r@[i]).transform),
        forall|i: int| 0 <= i < r@.len() ==> instances_wf(#[trigger] r@[i], meshes@),
        forall|i: int|
            0 <= i < r@.len() ==> node_built(
                *doc,
                meshes@,
                ranges@,
                parents@,
                active_camera_node,
                i,
                #[trigger] r@[i],
            ),
{
    let meshes_n: usize = meshes.len();
    let mut nodes: Vec<SceneNode> = Vec::new();
    let mut i: usize = 0;
    while i < doc.nodes.len()
        invariant
            i <= doc.nodes@.len(),
            nodes@.len() == i,
            meshes_n == meshes@.len(),
            parents@.len() == doc.nodes@.len(),
            ranges@.len() == doc.meshes@.len(),
            forall|m: int|
                0 <= m < ranges@.len() ==> (#[trigger] ranges@[m]).0 + ranges@[m].1
                    <= meshes@.len(),
            forall|j: int| 0 <= j < i ==> trs_wf((#[trigger] nodes@[j]).transform),
            forall|j: int| 0 <= j < i ==> instances_wf(#[trigger] nodes@[j], meshes@),
            forall|j: int|
                0 <= j < i ==> node_built(
                    *doc,
                    meshes@,
                    ranges@,
                    parents@,
                    active_camera_node,
                    j,
                    #[trigger] nodes@[j],
                ),
        decreases doc.nodes@.len() - i,
    {
        let decl = &doc.nodes[i];
        let transform = node_transform(&decl.transform);
        let mut instances: Vec<PrimitiveInstance> = Vec::new();
        match decl.mesh {
            Option::Some(mesh_idx) => {
                if mesh_idx < doc.meshes.len() {
                    let mesh = &doc.meshes[mesh_idx];
                    let (start, count): (usize, usize) = ranges[mesh_idx];
                    let mut k: usize = 0;
                    while k < count
                        invariant
                            k <= count,
                            meshes_n == meshes@.len(),
                            start + count <= meshes@.len(),
                            (mesh_idx as int) < doc.meshes@.len(),
                            (mesh_idx as int) < ranges@.len(),
                            ranges@[mesh_idx as int] == (start, count),
                            mesh == doc.meshes@[mesh_idx as int],
                            instances@.len() == k,
                            forall|q: int|
                                0 <= q < k ==> instance_built(
                                    *doc,
                                    meshes@,
                                    ranges@,
                                    mesh_idx as int,
                                    q,
                                    #[trigger] instances@[q],
                                ),
                            forall|q: int|
                                0 <= q < instances@.len() ==> (#[trigger] instances@[q]).primitive
                                    < meshes@.len() && instances@[q].morph_weights@.len()
                                    == target_count_of(meshes@[instances@[q].primitive as int]),
                        decreases count - k,
                    {
                        let global: usize = start + k;
                        let tc: usize = match &meshes[global].morph {
                            Option::Some(blk) => blk.targets.len(),
                            Option::None => 0,
                        };
                        let mut weights: Vec<i64> = Vec::new();
                        let mut w: usize = 0;
                        while w < tc
                            invariant
                                w <= tc,
                                weights@.len() == w,
                                (mesh_idx as int) < doc.meshes@.len(),
                                mesh == doc.meshes@[mesh_idx as int],
                                forall|q: int|
                                    0 <= q < w ==> #[trigger] weights@[q] == (if q
                                        < doc.meshes@[mesh_idx as int].weights@.len() {
                                        doc.meshes@[mesh_idx as int].weights@[q]
                                    } else {
                                        0i64
                                    }),
                            decreases tc - w,
                        {
                            let value: i64 = if w < mesh.weights.len() {
                                mesh.weights[w]
                            } else {
                                0
                            };
                            weights.push(value);
                            w = w + 1;
                        }
                        instances.push(
                            PrimitiveInstance {
                                primitive: global,
                                material: meshes[global].material,
                                morph_weights: weights,
                                name: primitive_name(mesh, k),
                            },
                        );
                        k = k + 1;
                    }
                }
            },
            Option::None => {},
        }
        let active: bool = match (decl.camera, active_camera_node) {
            (Option::Some(_), Option::Some(a)) => a == i,
            _ => false,
        };
        nodes.push(
            SceneNode {
                name: node_name(decl, i),
                transform,
                children: copy_indices(&decl.children),
                parent: parents[i],
                mesh: decl.mesh,
                skin: decl.skin,
                camera: decl.camera,
                camera_active: active,
                instances,
            },
        );
        i = i + 1;
    }
    nodes
}

/// Copies an index list.
fn copy_indices(src: &Vec<usize>) -> (r: Vec<usize>)
    ensures
        r@ == src@,
{
    let mut r: Vec<usize> = Vec::new();
    let mut i: usize = 0;
    while i < src.len()
        invariant
            i <= src@.len(),
            r@ == src@.subrange(0, i as int),
        decreases src@.len() - i,
    {
        r.push(src[i]);
        proof {
            assert(r@ =~= src@.subrange(0, (i + 1) as int));
        }
        i = i + 1;
    }
    proof {
        assert(src@.subrange(0, src@.len() as int) =~= src@);
    }
    r
}

/// One depth-first walk state step: pops the top entry; an out-of-range
/// or already-visited node is skipped; a fresh node records its parent,
/// claims the camera when none is claimed yet, and stacks its children
/// (first child on top).
pub open spec fn dfs_spec(
    doc: GltfDocument,
    stack: Seq<(usize, Option<usize>)>,
    visited: Seq<bool>,
    parents: Seq<Option<usize>>,
    active: Option<usize>,
    found: bool,
    fuel: nat,
) -> (Seq<Option<usize>>, Option<usize>)
    decreases fuel,
{
    if fuel == 0 || stack.len() == 0 {
        (parents, active)
    } else {
        let (node, parent) = stack.last();
        let popped = stack.drop_last();
        if (node as int) >= doc.nodes@.len() || visited[node as int] {
            dfs_spec(doc, popped, visited, parents, active, found, (fuel - 1) as nat)
        } else {
            let visited1 = visited.update(node as int, true);
            let parents1 = parents.update(node as int, parent);
            let claims = !found && doc.nodes@[node as int].camera is Some;
            let active1 = if claims {
                Option::Some(node)
            } else {
                active
            };
            let found1 = found || claims;
            let pushed = popped + doc.nodes@[node as int].children@.reverse().map_values(
                |c: usize| (c, Option::Some(node)),
            );
            dfs_spec(doc, pushed, visited1, parents1, active1, found1, (fuel - 1) as nat)
        }
    }
}

/// The edge total of the first e nodes, saturating at the address range.
pub open spec fn edge_fuel_spec(doc: GltfDocument, e: int) -> int
    decreases e,
{
    if e <= 0 {
        doc.nodes@.len() as int
    } else {
        let prev = edge_fuel_spec(doc, e - 1);
        if prev + doc.nodes@[e - 1].children@.len() > usize::MAX {
            usize::MAX as int
        } else {
            prev + doc.nodes@[e - 1].children@.len()
        }
    }
}

/// The walk fuel: nodes plus edges plus roots plus one, saturating.
pub open spec fn traverse_fuel_spec(doc: GltfDocument, roots: Seq<usize>) -> int {
    let edges = edge_fuel_spec(doc, doc.nodes@.len() as int);
    let with_roots = if edges + roots.len() > usize::MAX {
        usize::MAX as int
    } else {
        edges + roots.len()
    };
    if with_roots + 1 > usize::MAX {
        usize::MAX as int
    } else {
        with_roots + 1
    }
}

/// The initial walk stack: the roots in order, first root on top.
pub open spec fn init_stack_spec(roots: Seq<usize>) -> Seq<(usize, Option<usize>)> {
    roots.reverse().map_values(|n: usize| (n, Option::<usize>::None))
}

/// What the whole walk yields: parents and the claimed camera node.
pub open spec fn traverse_spec(doc: GltfDocument, roots: Seq<usize>, camera_taken: bool) -> (
    Seq<Option<usize>>,
    Option<usize>,
) {
    dfs_spec(
        doc,
        init_stack_spec(roots),
        Seq::new(doc.nodes@.len(), |i: int| false),
        Seq::new(doc.nodes@.len(), |i: int| Option::<usize>::None),
        Option::<usize>::None,
        camera_taken,
        traverse_fuel_spec(doc, roots) as nat,
    )
}

/// Walks the declared forest from the scene's roots in depth-first order:
/// records each reached node's parent (first reach wins, cycles are not
/// followed twice) and the first camera node found, honoring a camera
/// already claimed by an earlier scene. The walk's fuel covers every node,
/// edge and root, so it ends only when the stack empties.
#[verifier::rlimit(100)]
pub fn traverse_scene(
    doc: &GltfDocument,
    roots: &Vec<usize>,
    camera_taken: bool,
) -> (r: (Vec<Option<usize>>, Option<usize>))
    ensures
        r.0@.len() == doc.nodes@.len(),
        (r.0@, r.1) == traverse_spec(*doc, roots@, camera_taken),
{
    let node_count: usize = doc.nodes.len();
    let mut parents: Vec<Option<usize>> = Vec::new();
    let mut i: usize = 0;
    while i < node_count
        invariant
            i <= node_count,
            parents@.len() == i,
            node_count == doc.nodes@.len(),
            forall|j: int| 0 <= j < i ==> #[trigger] parents@[j] is None,
        decreases node_count - i,
    {
        parents.push(Option::None);
        i = i + 1;
    }
    let mut visited: Vec<bool> = Vec::new();
    let mut j: usize = 0;
    while j < node_count
        invariant
            j <= node_count,
            visited@.len() == j,
            node_count == doc.nodes@.len(),
            forall|q: int| 0 <= q < j ==> #[trigger] visited@[q] == false,
        decreases node_count - j,
    {
        visited.push(false);
        j = j + 1;
    }
    proof {
        assert(visited@ =~= Seq::new(doc.nodes@.len(), |i: int| false));
        assert(parents@ =~= Seq::new(doc.nodes@.len(), |i: int| Option::<usize>::None));
    }
    // Fuel bounds the walk: every node is visited at most once and pushes
    // its children once, so the edge total plus the roots suffice.
    let mut fuel: usize = node_count;
    let mut e: usize = 0;
    while e < node_count
        invariant
            e <= node_count,
            node_count == doc.nodes@.len(),
            fuel == edge_fuel_spec(*doc, e as int),
        decreases node_count - e,
    {
        fuel = fuel.saturating_add(doc.nodes[e].children.len());
        e = e + 1;
    }
    fuel = fuel.saturating_add(roots.len()).saturating_add(1);
    proof {
        assert(fuel == traverse_fuel_spec(*doc, roots@));
    }
    let mut active_camera: Option<usize> = Option::None;
    let mut found: bool = camera_taken;
    let mut stack: Vec<(usize, Option<usize>)> = Vec::new();
    let mut ri: usize = roots.len();
    while ri > 0
        invariant
            ri <= roots@.len(),
            stack@ == roots@.subrange(ri as int, roots@.len() as int).reverse().map_values(
                |n: usize| (n, Option::<usize>::None),
            ),
        decreases ri,
    {
        ri = ri - 1;
        let ghost prev = stack@;
        stack.push((roots[ri], Option::None));
        proof {
            assert(stack@ =~= roots@.subrange(ri as int, roots@.len() as int).reverse().map_values(
                |n: usize| (n, Option::<usize>::None),
            ));
        }
    }
    proof {
        assert(roots@.subrange(0, roots@.len() as int) =~= roots@);
        assert(stack@ =~= init_stack_spec(roots@));
    }
    let ghost goal = traverse_spec(*doc, roots@, camera_taken);
    while stack.len() > 0 && fuel > 0
        invariant
            parents@.len() == doc.nodes@.len(),
            visited@.len() == doc.nodes@.len(),
            dfs_spec(*doc, stack@, visited@, parents@, active_camera, found, fuel as nat) == goal,
        decreases fuel,
    {
        let ghost pre_stack = stack@;
        let ghost pre_visited = visited@;
        let ghost pre_parents = parents@;
        let ghost pre_active = active_camera;
        let ghost pre_found = found;
        let ghost pre_fuel = fuel;
        fuel = fuel - 1;
        let (node, parent): (usize, Option<usize>) = match stack.pop() {
            Option::Some(p) => p,
            Option::None => {
                proof {
                    assert(false);
                }
                (0, Option::None)
            },
        };
        proof {
            assert(pre_stack.last() == (node, parent));
            assert(stack@ == pre_stack.drop_last());
        }
        if node >= doc.nodes.len() {
            proof {
                assert(dfs_spec(*doc, stack@, visited@, parents@, active_camera, found, fuel as nat)
                    == goal);
            }
            continue ;
        }
        if visited[node] {
            proof {
                assert(dfs_spec(*doc, stack@, visited@, parents@, active_camera, found, fuel as nat)
                    == goal);
            }
            continue ;
        }
        visited.set(node, true);
        parents.set(node, parent);
        if !found {
            match doc.nodes[node].camera {
                Option::Some(_) => {
                    active_camera = Option::Some(node);
                    found = true;
                },
                Option::None => {},
            }
        }
        let children = &doc.nodes[node].children;
        let ghost base = stack@;
        let mut c: usize = children.len();
        while c > 0
            invariant
                c <= children@.len(),
                (node as int) < doc.nodes@.len(),
                children == doc.nodes@[node as int].children,
                stack@ == base + children@.subrange(c as int, children@.len() as int)
                    .reverse().map_values(|ch: usize| (ch, Option::Some(node))),
            decreases c,
        {
            c = c - 1;
            stack.push((children[c], Option::Some(node)));
            proof {
                assert(stack@ =~= base + children@.subrange(c as int, children@.len() as int)
                    .reverse().map_values(|ch: usize| (ch, Option::Some(node))));
            }
        }
        proof {
            assert(children@.subrange(0, children@.len() as int) =~= children@);
            assert(stack@ =~= pre_stack.drop_last() + doc.nodes@[node as int].children@
                .reverse().map_values(|ch: usize| (ch, Option::Some(node))));
            assert(dfs_spec(*doc, stack@, visited@, parents@, active_camera, found, fuel as nat)
                == goal);
        }
    }
    proof {
        if fuel == 0 || stack@.len() == 0 {
            assert(dfs_spec(*doc, stack@, visited@, parents@, active_camera, found, fuel as nat)
                == (parents@, active_camera));
        }
    }
    (parents, active_camera)
}

/// The sixteen entries of the identity matrix, as a sequence.
pub open spec fn identity_entries() -> Seq<i64> {
    Seq::new(16, |j: int| if j % 5 == 0 {
        FX_ONE as i64
    } else {
        0i64
    })
}

/// Whether one declared skin can be wired: every joint lies in the node
/// arena and a declared inverse-bind accessor is a readable MAT4 stream.
pub open spec fn skin_ok_spec(
    doc: GltfDocument,
    buffers: Seq<Vec<u8>>,
    node_count: int,
    s: int,
) -> bool {
    &&& forall|j: int|
        0 <= j < doc.skins@[s].joints@.len() ==> (#[trigger] doc.skins@[s].joints@[j]) < node_count
    &&& match doc.skins@[s].inverse_bind_matrices {
        Option::Some(a) => {
            &&& (a as int) < doc.accessors@.len()
            &&& doc.accessors@[a as int].component_type == 5126
            &&& doc.accessors@[a as int].kind == crate::document::ElementKind::Mat4
            &&& accessor_window_ok(doc, buffers, doc.accessors@[a as int], 64)
        },
        Option::None => true,
    }
}

/// The k-th inverse-bind matrix of a wired skin: decoded when the
/// accessor covers it, the identity otherwise.
pub open spec fn skin_matrix_ok(
    doc: GltfDocument,
    buffers: Seq<Vec<u8>>,
    s: int,
    k: int,
    m: Mat4Fx,
) -> bool {
    match doc.skins@[s].inverse_bind_matrices {
        Option::None => m.entries@ == identity_entries(),
        Option::Some(a) => {
            let acc = doc.accessors@[a as int];
            if k < acc.count {
                &&& m.wf()
                &&& forall|j: int|
                    0 <= j < 16 ==> #[trigger] m.entries@[j] == fx_at(
                        (buffers[window_buffer_spec(doc, acc)])@,
                        window_base_spec(doc, acc) + k * window_stride_spec(doc, acc, 64) + 4 * j,
                    ) as i64
            } else {
                m.entries@ == identity_entries()
            }
        },
    }
}

/// Everything wiring one skin promises.
pub open spec fn skin_bound_ok(
    doc: GltfDocument,
    buffers: Seq<Vec<u8>>,
    s: int,
    b: SkinBinding,
) -> bool {
    &&& b.joints@ == doc.skins@[s].joints@
    &&& b.inverse_bind@.len() == b.joints@.len()
    &&& forall|k: int|
        0 <= k < b.inverse_bind@.len() ==> skin_matrix_ok(
            doc,
            buffers,
            s,
            k,
            #[trigger] b.inverse_bind@[k],
        )
}

/// Wires every declared skin: joint indices resolve into the node arena
/// (an out-of-range joint is fatal) and the inverse-bind-matrix list is
/// decoded and aligned one to one with the joints, identity matrices
/// filling in when the accessor is absent or short. Succeeds exactly when
/// every skin can be wired.
#[verifier::rlimit(100)]
pub fn build_skin_bindings(
    doc: &GltfDocument,
    buffers: &Vec<Vec<u8>>,
    node_count: usize,
) -> (r: Result<Vec<SkinBinding>, VrmError>)
    ensures
        (r is Ok) <==> (forall|s: int|
            0 <= s < doc.skins@.len() ==> skin_ok_spec(*doc, buffers@, node_count as int, s)),
        match r {
            Result::Ok(v) => v@.len() == doc.skins@.len() && (forall|s: int|
                0 <= s < v@.len() ==> (#[trigger] v@[s]).wf(node_count as int)) && (forall|s: int|
                0 <= s < v@.len() ==> skin_bound_ok(*doc, buffers@, s, #[trigger] v@[s])),
            Result::Err(e) => e == VrmError::InvalidSkinReference || e
                == VrmError::AccessorOutOfBounds,
        },
{
    let mut out: Vec<SkinBinding> = Vec::new();
    let mut s: usize = 0;
    while s < doc.skins.len()
        invariant
            s <= doc.skins@.len(),
            out@.len() == s,
            forall|k: int| 0 <= k < s ==> (#[trigger] out@[k]).wf(node_count as int),
            forall|k: int|
                0 <= k < s ==> skin_ok_spec(*doc, buffers@, node_count as int, k),
            forall|k: int| 0 <= k < s ==> skin_bound_ok(*doc, buffers@, k, #[trigger] out@[k]),
        decreases doc.skins@.len() - s,
    {
        let skin = &doc.skins[s];
        let mut joints: Vec<usize> = Vec::new();
        let mut j: usize = 0;
        while j < skin.joints.len()
            invariant
                j <= skin.joints@.len(),
                (s as int) < doc.skins@.len(),
                skin == doc.skins@[s as int],
                joints@ == skin.joints@.subrange(0, j as int),
                forall|k: int| 0 <= k < j ==> (#[trigger] joints@[k]) < node_count,
            decreases skin.joints@.len() - j,
        {
            let joint: usize = skin.joints[j];
            if joint >= node_count {
                proof {
                    assert(!skin_ok_spec(*doc, buffers@, node_count as int, s as int));
                }
                return Result::Err(VrmError::InvalidSkinReference);
            }
            joints.push(joint);
            proof {
                assert(joints@ =~= skin.joints@.subrange(0, (j + 1) as int));
            }
            j = j + 1;
        }
        proof {
            assert(skin.joints@.subrange(0, skin.joints@.len() as int) =~= skin.joints@);
        }
        let mut decoded: Vec<Mat4Fx> = Vec::new();
        match skin.inverse_bind_matrices {
            Option::Some(acc_idx) => {
                if acc_idx >= doc.accessors.len() {
                    proof {
                        assert(!skin_ok_spec(*doc, buffers@, node_count as int, s as int));
                    }
                    return Result::Err(VrmError::InvalidSkinReference);
                }
                match decode_mat4(doc, buffers, &doc.accessors[acc_idx]) {
                    Result::Ok(v) => {
                        decoded = v;
                    },
                    Result::Err(e) => {
                        proof {
                            assert(!skin_ok_spec(*doc, buffers@, node_count as int, s as int));
                        }
                        return Result::Err(e);
                    },
                }
            },
            Option::None => {},
        }
        let mut inverse_bind: Vec<Mat4Fx> = Vec::new();
        let mut k: usize = 0;
        while k < joints.len()
            invariant
                k <= joints@.len(),
                inverse_bind@.len() == k,
                (s as int) < doc.skins@.len(),
                skin == doc.skins@[s as int],
                skin_ok_spec(*doc, buffers@, node_count as int, s as int),
                match skin.inverse_bind_matrices {
                    Option::Some(a) => {
                        &&& decoded@.len() == doc.accessors@[a as int].count
                        &&& forall|q: int, w: int|
                            0 <= q < decoded@.len() && 0 <= w < 16
                                ==> #[trigger] (decoded@[q].entries@)[w] == fx_at(
                                (buffers@[window_buffer_spec(*doc, doc.accessors@[a as int])])@,
                                window_base_spec(*doc, doc.accessors@[a as int]) + q
                                    * window_stride_spec(*doc, doc.accessors@[a as int], 64) + 4
                                    * w,
                            ) as i64
                        &&& forall|q: int| 0 <= q < decoded@.len() ==> (#[trigger] decoded@[q]).wf()
                    },
                    Option::None => decoded@.len() == 0,
                },
                forall|q: int|
                    0 <= q < k ==> skin_matrix_ok(
                        *doc,
                        buffers@,
                        s as int,
                        q,
                        #[trigger] inverse_bind@[q],
                    ),
            decreases joints@.len() - k,
        {
            if k < decoded.len() {
                let src: &Mat4Fx = &decoded[k];
                let copied = Mat4Fx { entries: copy_fx(&src.entries) };
                inverse_bind.push(copied);
            } else {
                let ident = Mat4Fx { entries: identity_mat4_entries() };
                inverse_bind.push(ident);
            }
            k = k + 1;
        }
        out.push(SkinBinding { joints, inverse_bind });
        s = s + 1;
    }
    Result::Ok(out)
}

/// Copies a scalar list.
fn copy_fx(src: &Vec<i64>) -> (r: Vec<i64>)
    ensures
        r@ == src@,
{
    let mut r: Vec<i64> = Vec::new();
    let mut i: usize = 0;
    while i < src.len()
        invariant
            i <= src@.len(),
            r@ == src@.subrange(0, i as int),
        decreases src@.len() - i,
    {
        r.push(src[i]);
        proof {
            assert(r@ =~= src@.subrange(0, (i + 1) as int));
        }
        i = i + 1;
    }
    proof {
        assert(src@.subrange(0, src@.len() as int) =~= src@);
    }
    r
}

/// The sixteen entries of the identity matrix.
fn identity_mat4_entries() -> (r: Vec<i64>)
    ensures
        r@ == identity_entries(),
{
    let mut r: Vec<i64> = Vec::new();
    let mut i: usize = 0;
    while i < 16
        invariant
            i <= 16,
            r@.len() == i,
            forall|j: int| 0 <= j < i ==> #[trigger] r@[j] == identity_entries()[j],
        decreases 16 - i,
    {
        if i % 5 == 0 {
            r.push(FX_ONE);
        } else {
            r.push(0);
        }
        i = i + 1;
    }
    proof {
        assert(r@ =~= identity_entries());
    }
    r
}

/// The calibration an eye carries: the four pairs of the gaze block, the
/// two horizontal buckets swapped for the paired eye.
pub open spec fn eye_map_ok(
    look_at: crate::document::LookAtJson,
    m: LookAtRangeMap,
    paired: bool,
) -> bool {
    let i0 = if paired {
        1int
    } else {
        0int
    };
    let i1 = if paired {
        0int
    } else {
        1int
    };
    &&& m.input_scale@[i0] == crate::gaze::range_input_spec(
        look_at.range_map_horizontal_inner.input_max_value as int,
    )
    &&& m.input_scale@[i1] == crate::gaze::range_input_spec(
        look_at.range_map_horizontal_outer.input_max_value as int,
    )
    &&& m.input_scale@[2] == crate::gaze::range_input_spec(
        look_at.range_map_vertical_down.input_max_value as int,
    )
    &&& m.input_scale@[3] == crate::gaze::range_input_spec(
        look_at.range_map_vertical_up.input_max_value as int,
    )
    &&& m.output_scale@[i0] == crate::gaze::range_ratio_spec(
        look_at.range_map_horizontal_inner.input_max_value as int,
        look_at.range_map_horizontal_inner.output_scale as int,
    )
    &&& m.output_scale@[i1] == crate::gaze::range_ratio_spec(
        look_at.range_map_horizontal_outer.input_max_value as int,
        look_at.range_map_horizontal_outer.output_scale as int,
    )
    &&& m.output_scale@[2] == crate::gaze::range_ratio_spec(
        look_at.range_map_vertical_down.input_max_value as int,
        look_at.range_map_vertical_down.output_scale as int,
    )
    &&& m.output_scale@[3] == crate::gaze::range_ratio_spec(
        look_at.range_map_vertical_up.input_max_value as int,
        look_at.range_map_vertical_up.output_scale as int,
    )
}

/// One wired eye: the mapped bone's node, its calibration (flipped for
/// the paired eye), and in bone mode the node's resting rotation as the
/// composition offset.
pub open spec fn eye_wired_ok(
    ext: ExtendedRoot,
    humanoid: Humanoid,
    nodes: Seq<SceneNode>,
    bone: HumanoidBone,
    paired: bool,
    e: EyeGaze,
) -> bool {
    &&& humanoid.maps(bone, e.eye_node as int)
    &&& (e.eye_node as int) < nodes.len()
    &&& eye_map_ok(ext.extensions.vrm.look_at, e.range_map, paired)
    &&& ((e.transform_look_at is Some) <==> ext.extensions.vrm.look_at.mode
        == crate::document::LookAtModeJson::Bone)
    &&& (match e.transform_look_at {
        Option::Some(t) => t.offset == nodes[e.eye_node as int].transform.rotation,
        Option::None => true,
    })
}

/// The gaze eye list: the left eye first when mapped, then the right.
pub open spec fn gaze_eyes_ok(
    ext: ExtendedRoot,
    humanoid: Humanoid,
    nodes: Seq<SceneNode>,
    g: GazeNodes,
) -> bool {
    &&& g.eyes@.len() == (if humanoid.has_bone(HumanoidBone::LeftEye) {
        1int
    } else {
        0int
    }) + (if humanoid.has_bone(HumanoidBone::RightEye) {
        1int
    } else {
        0int
    })
    &&& (humanoid.has_bone(HumanoidBone::LeftEye) ==> eye_wired_ok(
        ext,
        humanoid,
        nodes,
        HumanoidBone::LeftEye,
        false,
        g.eyes@[0],
    ))
    &&& (humanoid.has_bone(HumanoidBone::RightEye) ==> eye_wired_ok(
        ext,
        humanoid,
        nodes,
        HumanoidBone::RightEye,
        true,
        g.eyes@[g.eyes@.len() - 1],
    ))
}

/// The name a scene gets: its declared one, or its label.
pub open spec fn scene_name_spec(doc: GltfDocument, scene_index: int) -> Seq<u8> {
    match doc.scenes@[scene_index].name {
        Option::Some(n) => n@,
        Option::None => "Scene".spec_bytes() + decimal_of(scene_index as nat),
    }
}

/// Assembles one scene: the node arena, skins, the humanoid rig and the
/// gaze hierarchy. The gaze nodes exist exactly when the head bone is
/// mapped; each mapped eye gets its offset node and calibration, the right
/// eye's calibration flipped, and a resting-rotation offset in bone mode.
/// Succeeds exactly when every declared skin can be wired.
#[verifier::rlimit(100)]
pub fn build_scene(
    doc: &GltfDocument,
    ext: &ExtendedRoot,
    meshes: &Vec<MeshPrimitive>,
    ranges: &Vec<(usize, usize)>,
    buffers: &Vec<Vec<u8>>,
    scene_index: usize,
    camera_taken: bool,
) -> (r: Result<(Scene, bool), VrmError>)
    requires
        ranges@.len() == doc.meshes@.len(),
        (scene_index as int) < doc.scenes@.len(),
        forall|m: int|
            0 <= m < ranges@.len() ==> (#[trigger] ranges@[m]).0 + ranges@[m].1 <= meshes@.len(),
    ensures
        (r is Ok) <==> (forall|s: int|
            0 <= s < doc.skins@.len() ==> skin_ok_spec(*doc, buffers@, doc.nodes@.len() as int, s)),
        match r {
            Result::Ok((sc, taken)) => {
                &&& sc.base_node_count == doc.nodes@.len()
                &&& sc.nodes@.len() >= doc.nodes@.len()
                &&& sc.label@ == "Scene".spec_bytes() + decimal_of(scene_index as nat)
                &&& sc.name@ == scene_name_spec(*doc, scene_index as int)
                &&& sc.roots@ == doc.scenes@[scene_index as int].nodes@
                &&& taken == (camera_taken || traverse_spec(
                    *doc,
                    doc.scenes@[scene_index as int].nodes@,
                    camera_taken,
                ).1 is Some)
                &&& forall|i: int|
                    0 <= i < doc.nodes@.len() ==> node_built(
                        *doc,
                        meshes@,
                        ranges@,
                        traverse_spec(
                            *doc,
                            doc.scenes@[scene_index as int].nodes@,
                            camera_taken,
                        ).0,
                        traverse_spec(
                            *doc,
                            doc.scenes@[scene_index as int].nodes@,
                            camera_taken,
                        ).1,
                        i,
                        #[trigger] sc.nodes@[i],
                    )
                &&& sc.skins@.len() == doc.skins@.len()
                &&& forall|s: int|
                    0 <= s < sc.skins@.len() ==> skin_bound_ok(
                        *doc,
                        buffers@,
                        s,
                        #[trigger] sc.skins@[s],
                    )
                &&& humanoid_built(
                    ext.extensions.vrm.humanoid,
                    doc.nodes@.len() as int,
                    sc.humanoid,
                )
                &&& sc.humanoid.wf(doc.nodes@.len() as int)
                &&& ((sc.gaze is Some) <==> sc.humanoid.has_bone(HumanoidBone::Head))
                &&& match sc.gaze {
                    Option::Some(g) => {
                        &&& gaze_eyes_ok(*ext, sc.humanoid, sc.nodes@, g)
                        &&& sc.humanoid.maps(HumanoidBone::Head, g.head as int)
                        &&& doc.nodes@.len() <= g.pivot < sc.nodes@.len()
                        &&& doc.nodes@.len() <= g.target < sc.nodes@.len()
                        &&& sc.nodes@[g.pivot as int].parent == Option::Some(g.head)
                        &&& sc.nodes@[g.target as int].parent == Option::Some(g.pivot)
                        &&& sc.nodes@[g.pivot as int].transform.translation.x == clamp_spec(
                            ext.extensions.vrm.look_at.offset_from_head_bone.x as int,
                            FX_RAW_MAX as int,
                        )
                        &&& sc.nodes@[g.pivot as int].transform.translation.y == clamp_spec(
                            ext.extensions.vrm.look_at.offset_from_head_bone.y as int,
                            FX_RAW_MAX as int,
                        )
                        &&& sc.nodes@[g.pivot as int].transform.translation.z == clamp_spec(
                            ext.extensions.vrm.look_at.offset_from_head_bone.z as int,
                            FX_RAW_MAX as int,
                        )
                    },
                    Option::None => true,
                }
            },
            Result::Err(e) => e == VrmError::InvalidSkinReference || e
                == VrmError::AccessorOutOfBounds,
        },
{
    let decl = &doc.scenes[scene_index];
    let roots = copy_indices(&decl.nodes);
    let (parents, active_camera) = traverse_scene(doc, &roots, camera_taken);
    let mut nodes = build_nodes(doc, meshes, ranges, &parents, active_camera);
    let base_node_count: usize = nodes.len();
    let skins = match build_skin_bindings(doc, buffers, base_node_count) {
        Result::Ok(v) => v,
        Result::Err(e) => {
            return Result::Err(e);
        },
    };
    let humanoid = build_humanoid(&ext.extensions.vrm.humanoid, base_node_count);
    let look_at = &ext.extensions.vrm.look_at;
    let gaze: Option<GazeNodes> = match humanoid.find(HumanoidBone::Head) {
        Option::Some(head) => {
            let pivot: usize = nodes.len();
            nodes.push(
                SceneNode {
                    name: gaze_node_name("Gaze Pivot"),
                    transform: Trs {
                        translation: clamp_v3(look_at.offset_from_head_bone),
                        rotation: FxQuat::identity(),
                        scale: FxVec3 { x: FX_ONE, y: FX_ONE, z: FX_ONE },
                    },
                    children: Vec::new(),
                    parent: Option::Some(head),
                    mesh: Option::None,
                    skin: Option::None,
                    camera: Option::None,
                    camera_active: false,
                    instances: Vec::new(),
                },
            );
            let target: usize = nodes.len();
            nodes.push(
                SceneNode {
                    name: gaze_node_name("Look Target"),
                    transform: Trs {
                        translation: FxVec3 { x: 0, y: 0, z: -10 * FX_ONE },
                        rotation: FxQuat::identity(),
                        scale: FxVec3 { x: FX_ONE, y: FX_ONE, z: FX_ONE },
                    },
                    children: Vec::new(),
                    parent: Option::Some(pivot),
                    mesh: Option::None,
                    skin: Option::None,
                    camera: Option::None,
                    camera_active: false,
                    instances: Vec::new(),
                },
            );
            let base_map = LookAtRangeMap::from_look_at(look_at);
            let bone_mode: bool = gaze_is_bone_mode(look_at);
            let mut eyes: Vec<EyeGaze> = Vec::new();
            match humanoid.find(HumanoidBone::LeftEye) {
                Option::Some(eye_node) => {
                    let offset_node: usize = nodes.len();
                    nodes.push(gaze_offset_node("Left Offset", target));
                    let base_rotation: FxQuat = if eye_node < base_node_count {
                        nodes[eye_node].transform.rotation
                    } else {
                        FxQuat::identity()
                    };
                    eyes.push(
                        EyeGaze {
                            eye_node,
                            offset_node,
                            range_map: base_map,
                            transform_look_at: if bone_mode {
                                Option::Some(TransformLookAt { offset: base_rotation })
                            } else {
                                Option::None
                            },
                        },
                    );
                },
                Option::None => {},
            }
            match humanoid.find(HumanoidBone::RightEye) {
                Option::Some(eye_node) => {
                    let offset_node: usize = nodes.len();
                    nodes.push(gaze_offset_node("Right Offset", target));
                    let base_rotation: FxQuat = if eye_node < base_node_count {
                        nodes[eye_node].transform.rotation
                    } else {
                        FxQuat::identity()
                    };
                    eyes.push(
                        EyeGaze {
                            eye_node,
                            offset_node,
                            range_map: base_map.flipped(),
                            transform_look_at: if bone_mode {
                                Option::Some(TransformLookAt { offset: base_rotation })
                            } else {
                                Option::None
                            },
                        },
                    );
                },
                Option::None => {},
            }
            Option::Some(GazeNodes { head, pivot, target, eyes })
        },
        Option::None => Option::None,
    };
    let label = scene_label(scene_index);
    let name: Vec<u8> = match &decl.name {
        Option::Some(n) => copy_range(n, 0, n.len()),
        Option::None => scene_label(scene_index),
    };
    let taken_after: bool = camera_taken || active_camera.is_some();
    Result::Ok(
        (
            Scene {
                label,
                name,
                nodes,
                base_node_count,
                roots,
                skins,
                humanoid,
                gaze,
            },
            taken_after,
        ),
    )
}

/// A fresh, empty gaze helper node.
fn gaze_offset_node(name: &str, parent: usize) -> (r: SceneNode)
{
    SceneNode {
        name: gaze_node_name(name),
        transform: Trs::identity(),
        children: Vec::new(),
        parent: Option::Some(parent),
        mesh: Option::None,
        skin: Option::None,
        camera: Option::None,
        camera_active: false,
        instances: Vec::new(),
    }
}

/// The display name of a synthesized gaze node.
fn gaze_node_name(name: &str) -> (r: Vec<u8>)
{
    let mut out: Vec<u8> = Vec::new();
    push_str_bytes(&mut out, name);
    out
}

/// Whether some earlier scene's walk has claimed the active camera before
/// scene s is built.
pub open spec fn camera_taken_spec(doc: GltfDocument, s: int) -> bool
    decreases s,
{
    if s <= 0 {
        false
    } else {
        camera_taken_spec(doc, s - 1) || traverse_spec(
            *&doc,
            doc.scenes@[s - 1].nodes@,
            camera_taken_spec(doc, s - 1),
        ).1 is Some
    }
}

/// Everything assembling one scene at its index promises, relative to the
/// document, the global primitive list and its ranges.
pub open spec fn scene_built(
    doc: GltfDocument,
    ext: ExtendedRoot,
    buffers: Seq<Vec<u8>>,
    meshes: Seq<MeshPrimitive>,
    ranges: Seq<(usize, usize)>,
    s: int,
    sc: Scene,
) -> bool {
    &&& sc.base_node_count == doc.nodes@.len()
    &&& sc.nodes@.len() >= doc.nodes@.len()
    &&& sc.label@ == "Scene".spec_bytes() + decimal_of(s as nat)
    &&& sc.name@ == scene_name_spec(doc, s)
    &&& sc.roots@ == doc.scenes@[s].nodes@
    &&& forall|i: int|
        0 <= i < doc.nodes@.len() ==> node_built(
            doc,
            meshes,
            ranges,
            traverse_spec(doc, doc.scenes@[s].nodes@, camera_taken_spec(doc, s)).0,
            traverse_spec(doc, doc.scenes@[s].nodes@, camera_taken_spec(doc, s)).1,
            i,
            #[trigger] sc.nodes@[i],
        )
    &&& sc.skins@.len() == doc.skins@.len()
    &&& forall|k: int|
        0 <= k < sc.skins@.len() ==> skin_bound_ok(doc, buffers, k, #[trigger] sc.skins@[k])
    &&& humanoid_built(ext.extensions.vrm.humanoid, doc.nodes@.len() as int, sc.humanoid)
    &&& ((sc.gaze is Some) <==> sc.humanoid.has_bone(HumanoidBone::Head))
    &&& (match sc.gaze {
        Option::Some(g) => gaze_eyes_ok(ext, sc.humanoid, sc.nodes@, g),
        Option::None => true,
    })
}

/// The asset invariant: every part of a loaded asset satisfies the
/// assembly guarantees relative to the document, extension view and
/// resolved buffers it carries.
pub open spec fn vrm_consistent(v: Vrm) -> bool {
    &&& ranges_partition(v.document, v.meshes@, v.mesh_ranges@)
    &&& forall|m: int|
        0 <= m < v.mesh_ranges@.len() ==> mesh_prims_assembled(
            v.document,
            v.buffers@,
            v.meshes@,
            v.mesh_ranges@,
            m,
        )
    &&& v.materials@.len() == v.document.materials@.len()
    &&& forall|i: int|
        0 <= i < v.materials@.len() ==> crate::material::material_matches(
            v.document.materials@[i],
            if i < v.extensions.materials@.len() {
                v.extensions.materials@[i].extensions.mtoon
            } else {
                Option::None
            },
            #[trigger] v.materials@[i],
        )
    &&& v.textures@.len() == v.document.textures@.len()
    &&& forall|t: int|
        0 <= t < v.textures@.len() ==> (#[trigger] v.textures@[t]).srgb
            == !crate::material::linear_texture_spec(v.document.materials@, t)
    &&& forall|t: int|
        0 <= t < v.textures@.len() ==> texture_selected_ok(
            v.document,
            v.buffers@,
            t,
            Seq::new(
                v.document.textures@.len(),
                |q: int| crate::material::linear_texture_spec(v.document.materials@, q),
            ),
            #[trigger] v.textures@[t],
        )
    &&& v.scenes@.len() == v.document.scenes@.len()
    &&& forall|s: int|
        0 <= s < v.scenes@.len() ==> (#[trigger] v.scenes@[s]).0@ == scene_name_spec(
            v.document,
            s,
        )
    &&& forall|s: int|
        0 <= s < v.scenes@.len() ==> scene_built(
            v.document,
            v.extensions,
            v.buffers@,
            v.meshes@,
            v.mesh_ranges@,
            s,
            (#[trigger] v.scenes@[s]).1,
        )
    &&& match v.default_scene {
        Option::Some(d) => v.document.scenes@.len() > 0 && d@ == scene_name_spec(v.document, 0),
        Option::None => v.document.scenes@.len() == 0,
    }
}

/// Assembles the whole asset from the typed document, its extension view
/// and the resolved buffers, which the asset then owns: every mesh
/// primitive, every material and texture, and one scene per declaration
/// with its rig and gaze nodes. Succeeds exactly when no primitive is
/// fatal, every skin can be wired and every texture's source can be
/// selected; the result then satisfies the asset invariant.
#[verifier::rlimit(100)]
pub fn assemble_vrm(doc: GltfDocument, ext: ExtendedRoot, buffers: Vec<Vec<u8>>) -> (r: Result<
    Vrm,
    VrmError,
>)
    ensures
        (r is Ok) <==> {
            &&& meshes_fatal_free(doc, buffers@)
            &&& (doc.scenes@.len() > 0 ==> forall|s: int|
                0 <= s < doc.skins@.len() ==> skin_ok_spec(
                    doc,
                    buffers@,
                    doc.nodes@.len() as int,
                    s,
                ))
            &&& forall|t: int|
                0 <= t < doc.textures@.len() ==> texture_ok_spec(doc, buffers@, t)
        },
        match r {
            Result::Ok(v) => v.document == doc && v.extensions == ext && v.buffers == buffers
                && vrm_consistent(v),
            Result::Err(e) => e != VrmError::MalformedContainer && e != VrmError::MalformedJson,
        },
{
    let (meshes, ranges): (Vec<MeshPrimitive>, Vec<(usize, usize)>) = match assemble_meshes(
        &doc,
        &buffers,
    ) {
        Result::Ok(p) => p,
        Result::Err(e) => {
            return Result::Err(e);
        },
    };
    // Materials: the toon variant exactly where the extension view carries
    // a toon block for the same index.
    let mut materials: Vec<Material> = Vec::new();
    let mut mi: usize = 0;
    while mi < doc.materials.len()
        invariant
            mi <= doc.materials@.len(),
            materials@.len() == mi,
            forall|i: int|
                0 <= i < mi ==> crate::material::material_matches(
                    doc.materials@[i],
                    if i < ext.materials@.len() {
                        ext.materials@[i].extensions.mtoon
                    } else {
                        Option::None
                    },
                    #[trigger] materials@[i],
                ),
        decreases doc.materials@.len() - mi,
    {
        let ext_entry: Option<&ExtendedMaterial> = if mi < ext.materials.len() {
            Option::Some(&ext.materials[mi])
        } else {
            Option::None
        };
        materials.push(load_material(&doc.materials[mi], ext_entry));
        mi = mi + 1;
    }
    // Textures: a failing texture aborts the load, the serial policy.
    let linear: Vec<bool> = compute_linear_textures(&doc.materials, doc.textures.len());
    proof {
        assert(linear@ =~= Seq::new(
            doc.textures@.len(),
            |q: int| crate::material::linear_texture_spec(doc.materials@, q),
        ));
    }
    let mut textures: Vec<EncodedTexture> = Vec::new();
    let mut ti: usize = 0;
    while ti < doc.textures.len()
        invariant
            ti <= doc.textures@.len(),
            linear@.len() == doc.textures@.len(),
            linear@ == Seq::new(
                doc.textures@.len(),
                |q: int| crate::material::linear_texture_spec(doc.materials@, q),
            ),
            textures@.len() == ti,
            forall|t: int| 0 <= t < ti ==> texture_ok_spec(doc, buffers@, t),
            forall|t: int|
                0 <= t < ti ==> texture_selected_ok(
                    doc,
                    buffers@,
                    t,
                    linear@,
                    #[trigger] textures@[t],
                ),
            forall|t: int|
                0 <= t < ti ==> (#[trigger] textures@[t]).srgb
                    == !crate::material::linear_texture_spec(doc.materials@, t),
        decreases doc.textures@.len() - ti,
    {
        match load_texture(&doc, &buffers, ti, &linear) {
            Result::Ok(t) => {
                textures.push(t);
            },
            Result::Err(e) => {
                proof {
                    assert(!texture_ok_spec(doc, buffers@, ti as int));
                }
                return Result::Err(e);
            },
        }
        ti = ti + 1;
    }
    let mut scenes: Vec<(Vec<u8>, Scene)> = Vec::new();
    let mut default_scene: Option<Vec<u8>> = Option::None;
    let mut camera_taken: bool = false;
    let mut s: usize = 0;
    while s < doc.scenes.len()
        invariant
            s <= doc.scenes@.len(),
            ranges@.len() == doc.meshes@.len(),
            forall|m: int|
                0 <= m < ranges@.len() ==> (#[trigger] ranges@[m]).0 + ranges@[m].1
                    <= meshes@.len(),
            ranges_partition(doc, meshes@, ranges@),
            s > 0 ==> (forall|sk: int|
                0 <= sk < doc.skins@.len() ==> skin_ok_spec(
                    doc,
                    buffers@,
                    doc.nodes@.len() as int,
                    sk,
                )),
            scenes@.len() == s,
            camera_taken == camera_taken_spec(doc, s as int),
            forall|q: int|
                0 <= q < s ==> (#[trigger] scenes@[q]).0@ == scene_name_spec(doc, q),
            forall|q: int|
                0 <= q < s ==> scene_built(
                    doc,
                    ext,
                    buffers@,
                    meshes@,
                    ranges@,
                    q,
                    (#[trigger] scenes@[q]).1,
                ),
            match default_scene {
                Option::Some(d) => s > 0 && d@ == scene_name_spec(doc, 0),
                Option::None => s == 0,
            },
        decreases doc.scenes@.len() - s,
    {
        let (scene, taken): (Scene, bool) = match build_scene(
            &doc,
            &ext,
            &meshes,
            &ranges,
            &buffers,
            s,
            camera_taken,
        ) {
            Result::Ok(p) => p,
            Result::Err(e) => {
                return Result::Err(e);
            },
        };
        camera_taken = taken;
        if default_scene.is_none() {
            let first = copy_range(&scene.name, 0, scene.name.len());
            proof {
                assert(scene.name@.subrange(0, scene.name@.len() as int) =~= scene.name@);
            }
            default_scene = Option::Some(first);
        }
        let scene_name = copy_range(&scene.name, 0, scene.name.len());
        proof {
            assert(scene.name@.subrange(0, scene.name@.len() as int) =~= scene.name@);
        }
        scenes.push((scene_name, scene));
        s = s + 1;
    }
    let v = Vrm {
        document: doc,
        extensions: ext,
        buffers,
        meshes,
        mesh_ranges: ranges,
        materials,
        textures,
        default_scene,
        scenes,
    };
    Result::Ok(v)
}

/// Loads a whole avatar asset from container bytes: split the container,
/// parse the JSON document, extract the typed document and its extension
/// view, resolve buffers (external files come from the fetched path/bytes
/// pairs), and assemble the asset. The result owns the document it was
/// assembled from and satisfies the asset invariant; its buffers are the
/// bytes the document's declarations denote, resolved against the
/// container's binary chunk and the fetched pairs.
#[verifier::rlimit(100)]
pub fn load_vrm(bytes: &Vec<u8>, fetched: &Vec<(Vec<u8>, Vec<u8>)>) -> (r: Result<Vrm, VrmError>)
    ensures
        (r == Result::<Vrm, VrmError>::Err(VrmError::MalformedContainer)) <==> parse_container_spec(
            bytes@,
        ) is Err,
        match r {
            Result::Ok(v) => {
                &&& vrm_consistent(v)
                &&& vrm_root_ok_of(v.extensions)
                &&& match parse_container_spec(bytes@) {
                    Result::Ok(c) => {
                        &&& v.buffers@.len() == v.document.buffers@.len()
                        &&& forall|i: int|
                            0 <= i < v.buffers@.len() ==> buffer_bytes_spec(
                                v.document.buffers@[i],
                                c.bin,
                                fetched@,
                            ) == Result::<Seq<u8>, VrmError>::Ok((#[trigger] v.buffers@[i])@)
                    },
                    Result::Err(_) => false,
                }
                &&& (v.scenes@.len() > 0 ==> v.default_scene is Some)
            },
            Result::Err(_) => true,
        },
{
    let container: Container = match parse_container(bytes) {
        Result::Ok(c) => c,
        Result::Err(e) => {
            return Result::Err(e);
        },
    };
    let root = match parse_json(&container.json) {
        Result::Ok(v) => v,
        Result::Err(e) => {
            return Result::Err(e);
        },
    };
    let doc: GltfDocument = extract_document(&root);
    let ext: ExtendedRoot = match extract_extended_root(&root) {
        Result::Ok(e) => e,
        Result::Err(e) => {
            return Result::Err(e);
        },
    };
    let buffers: Vec<Vec<u8>> = match resolve_buffers(
        &doc,
        match &container.bin {
            Option::Some(b) => Option::Some(b),
            Option::None => Option::None,
        },
        fetched,
    ) {
        Result::Ok(v) => v,
        Result::Err(e) => {
            return Result::Err(e);
        },
    };
    assemble_vrm(doc, ext, buffers)
}

} // verus!
