//! Mesh-primitive assembly: topology, flat normals, morph-target packing.

use vstd::prelude::*;

use crate::error::VrmError;
use crate::geom::{
    v3_bounded, v3_cross, v3_cross_spec, v3_normalize, v3_normalize_spec, v3_sub, v3_sub_spec,
    FxVec3, FxVec4,
};

verus! {

/// The supported primitive topologies.
#[derive(Clone, Copy, Debug, PartialEq, Eq, Structural)]
pub enum Topology {
    /// Isolated points.
    Points,
    /// Isolated line segments.
    Lines,
    /// A connected line strip.
    LineStrip,
    /// Isolated triangles.
    TriangleList,
    /// A connected triangle strip.
    TriangleStrip,
}

/// Whether a topology code lies in the supported set.
pub open spec fn supported_mode(mode: u32) -> bool {
    mode == 0 || mode == 1 || mode == 3 || mode == 4 || mode == 5
}

/// The topology a supported code denotes.
pub open spec fn topology_of(mode: u32) -> Topology
    recommends
        supported_mode(mode),
{
    if mode == 0 {
        Topology::Points
    } else if mode == 1 {
        Topology::Lines
    } else if mode == 3 {
        Topology::LineStrip
    } else if mode == 4 {
        Topology::TriangleList
    } else {
        Topology::TriangleStrip
    }
}

/// Maps a declared topology code to the supported set; every code outside
/// it is rejected with `UnsupportedPrimitive`.
pub fn get_primitive_topology(mode: u32) -> (r: Result<Topology, VrmError>)
    ensures
        (r is Ok) <==> supported_mode(mode),
        r is Ok ==> r->Ok_0 == topology_of(mode),
        mode == 0 ==> r == Result::<Topology, VrmError>::Ok(Topology::Points),
        mode == 1 ==> r == Result::<Topology, VrmError>::Ok(Topology::Lines),
        mode == 3 ==> r == Result::<Topology, VrmError>::Ok(Topology::LineStrip),
        mode == 4 ==> r == Result::<Topology, VrmError>::Ok(Topology::TriangleList),
        mode == 5 ==> r == Result::<Topology, VrmError>::Ok(Topology::TriangleStrip),
        mode != 0 && mode != 1 && mode != 3 && mode != 4 && mode != 5 ==> r == Result::<
            Topology,
            VrmError,
        >::Err(VrmError::UnsupportedPrimitive { mode }),
{
    if mode == 0 {
        Result::Ok(Topology::Points)
    } else if mode == 1 {
        Result::Ok(Topology::Lines)
    } else if mode == 3 {
        Result::Ok(Topology::LineStrip)
    } else if mode == 4 {
        Result::Ok(Topology::TriangleList)
    } else if mode == 5 {
        Result::Ok(Topology::TriangleStrip)
    } else {
        Result::Err(VrmError::UnsupportedPrimitive { mode })
    }
}

/// One vertex's morph deltas.
#[derive(Clone, Copy, Debug, PartialEq, Eq, Structural)]
pub struct MorphAttributes {
    /// Position delta.
    pub position: FxVec3,
    /// Normal delta.
    pub normal: FxVec3,
    /// Tangent delta.
    pub tangent: FxVec3,
}

impl MorphAttributes {
    /// All deltas zero.
    pub fn zero() -> (r: MorphAttributes)
        ensures
            r == MorphAttributes::zero_spec(),
    {
        MorphAttributes {
            position: FxVec3 { x: 0, y: 0, z: 0 },
            normal: FxVec3 { x: 0, y: 0, z: 0 },
            tangent: FxVec3 { x: 0, y: 0, z: 0 },
        }
    }

    /// All deltas zero.
    pub open spec fn zero_spec() -> MorphAttributes {
        MorphAttributes {
            position: FxVec3 { x: 0, y: 0, z: 0 },
            normal: FxVec3 { x: 0, y: 0, z: 0 },
            tangent: FxVec3 { x: 0, y: 0, z: 0 },
        }
    }
}

/// The packed morph-target block: one row group per target, one column per
/// vertex, addressable by (target, vertex).
#[derive(Clone, Debug, PartialEq, Eq)]
pub struct MorphTargetBlock {
    /// The mesh's vertex count; every target list has this length.
    pub vertex_count: usize,
    /// Per-target delta lists.
    pub targets: Vec<Vec<MorphAttributes>>,
}

impl MorphTargetBlock {
    /// Every target list is exactly as long as the vertex count.
    pub open spec fn wf(self) -> bool {
        forall|t: int| 0 <= t < self.targets@.len() ==> (#[trigger] self.targets@[t])@.len()
            == self.vertex_count
    }

    /// Number of targets.
    pub fn target_count(&self) -> (r: usize)
        ensures
            r == self.targets@.len(),
    {
        self.targets.len()
    }

    /// The delta record at (target, vertex).
    pub fn at(&self, target: usize, vertex: usize) -> (r: MorphAttributes)
        requires
            self.wf(),
            target < self.targets@.len(),
            vertex < self.vertex_count,
        ensures
            r == self.targets@[target as int]@[vertex as int],
    {
        self.targets[target][vertex]
    }
}

/// Packs per-target delta lists into a block keyed by the vertex count:
/// every target list is padded with zero deltas or truncated to exactly the
/// vertex count.
pub fn build_morph_block(raw: &Vec<Vec<MorphAttributes>>, vertex_count: usize) -> (r:
    MorphTargetBlock)
    ensures
        r.wf(),
        r.vertex_count == vertex_count,
        r.targets@.len() == raw@.len(),
        forall|t: int, v: int|
            0 <= t < raw@.len() && 0 <= v < vertex_count ==> #[trigger] (r.targets@[t])@[v] == (
            if v < (raw@[t])@.len() {
                (raw@[t])@[v]
            } else {
                MorphAttributes::zero_spec()
            }),
{
    let mut targets: Vec<Vec<MorphAttributes>> = Vec::new();
    let mut t: usize = 0;
    while t < raw.len()
        invariant
            t <= raw@.len(),
            targets@.len() == t,
            forall|i: int| 0 <= i < t ==> (#[trigger] targets@[i])@.len() == vertex_count,
            forall|i: int, v: int|
                0 <= i < t && 0 <= v < vertex_count ==> #[trigger] (targets@[i])@[v] == (
                if v < (raw@[i])@.len() {
                    (raw@[i])@[v]
                } else {
                    MorphAttributes::zero_spec()
                }),
        decreases raw@.len() - t,
    {
        let src: &Vec<MorphAttributes> = &raw[t];
        let mut list: Vec<MorphAttributes> = Vec::new();
        let mut v: usize = 0;
        while v < vertex_count
            invariant
                v <= vertex_count,
                list@.len() == v,
                forall|k: int|
                    0 <= k < v ==> list@[k] == (if k < src@.len() {
                        src@[k]
                    } else {
                        MorphAttributes::zero_spec()
                    }),
            decreases vertex_count - v,
        {
            if v < src.len() {
                list.push(src[v]);
            } else {
                list.push(MorphAttributes::zero());
            }
            v = v + 1;
        }
        targets.push(list);
        t = t + 1;
    }
    MorphTargetBlock { vertex_count, targets }
}

/// The flat normal of a triangle: the normalized cross product of its two
/// edge vectors, or zero for a degenerate triangle.
pub open spec fn flat_normal_spec(a: FxVec3, b: FxVec3, c: FxVec3) -> FxVec3 {
    match v3_normalize_spec(v3_cross_spec(v3_sub_spec(b, a), v3_sub_spec(c, a))) {
        Option::Some(n) => n,
        Option::None => FxVec3 { x: 0, y: 0, z: 0 },
    }
}

/// The flat normal of a triangle.
pub fn flat_normal(a: FxVec3, b: FxVec3, c: FxVec3) -> (r: FxVec3)
    requires
        v3_bounded(a),
        v3_bounded(b),
        v3_bounded(c),
    ensures
        r == flat_normal_spec(a, b, c),
        v3_bounded(r),
{
    let e1 = v3_sub(b, a);
    let e2 = v3_sub(c, a);
    let n = v3_cross(e1, e2);
    match v3_normalize(n) {
        Option::Some(u) => u,
        Option::None => FxVec3 { x: 0, y: 0, z: 0 },
    }
}

/// All positions within the scalar range.
pub open spec fn positions_bounded(p: Seq<FxVec3>) -> bool {
    forall|i: int| 0 <= i < p.len() ==> v3_bounded(#[trigger] p[i])
}

/// The flat normal of the face that vertex i belongs to.
pub open spec fn face_normal_at(p: Seq<FxVec3>, i: int) -> FxVec3 {
    let f = i / 3;
    flat_normal_spec(p[3 * f], p[3 * f + 1], p[3 * f + 2])
}

/// The computed flat normals: each vertex of a whole face carries that
/// face's normal; vertices past the last whole face carry zero.
pub open spec fn flat_normals_ok(p: Seq<FxVec3>, r: Seq<FxVec3>) -> bool {
    &&& r.len() == p.len()
    &&& forall|i: int|
        0 <= i < p.len() ==> #[trigger] r[i] == (if i < 3 * (p.len() / 3) {
            face_normal_at(p, i)
        } else {
            FxVec3 { x: 0, y: 0, z: 0 }
        })
}

/// All three vertices of a whole face share one computed normal: the
/// normalized cross product of the face's edge vectors.
pub proof fn lemma_flat_normals_face(p: Seq<FxVec3>, r: Seq<FxVec3>, f: int)
    requires
        flat_normals_ok(p, r),
        0 <= f,
        3 * f + 2 < p.len(),
    ensures
        r[3 * f] == flat_normal_spec(p[3 * f], p[3 * f + 1], p[3 * f + 2]),
        r[3 * f + 1] == r[3 * f],
        r[3 * f + 2] == r[3 * f],
{
    assert((3 * f) / 3 == f && (3 * f + 1) / 3 == f && (3 * f + 2) / 3 == f) by (nonlinear_arith)
        requires
            0 <= f,
    ;
    assert(3 * f + 2 < 3 * ((p.len() / 3) as int) + 3) by (nonlinear_arith)
        requires
            3 * f + 2 < p.len(),
            0 <= f,
    ;
    assert(f < p.len() / 3 + 1);
    assert(3 * f < 3 * (p.len() / 3) || f == p.len() / 3) by (nonlinear_arith)
        requires
            f <= p.len() / 3,
    ;
    if f == p.len() / 3 {
        assert(3 * (p.len() / 3) + 3 <= p.len() + 3);
        assert(p.len() < 3 * (p.len() / 3) + 3) by (nonlinear_arith);
        assert(false);
    }
    assert(3 * f + 2 < 3 * (p.len() / 3)) by (nonlinear_arith)
        requires
            f < p.len() / 3,
    ;
    assert(r[3 * f] == face_normal_at(p, 3 * f));
    assert(r[3 * f + 1] == face_normal_at(p, 3 * f + 1));
    assert(r[3 * f + 2] == face_normal_at(p, 3 * f + 2));
}

/// Computes per-face flat normals for an unindexed triangle list.
pub fn compute_flat_normals(positions: &Vec<FxVec3>) -> (r: Vec<FxVec3>)
    requires
        positions_bounded(positions@),
    ensures
        flat_normals_ok(positions@, r@),
{
    let mut r: Vec<FxVec3> = Vec::new();
    let total: usize = positions.len();
    let faces: usize = total / 3;
    let mut f: usize = 0;
    proof {
        assert(3 * faces <= total && total < 3 * faces + 3) by (nonlinear_arith)
            requires
                faces == total / 3,
        ;
    }
    while f < faces
        invariant
            f <= faces,
            faces == positions@.len() / 3,
            3 * faces <= positions@.len(),
            total == positions@.len(),
            r@.len() == 3 * f,
            positions_bounded(positions@),
            forall|i: int|
                0 <= i < 3 * f ==> #[trigger] r@[i] == face_normal_at(positions@, i),
        decreases faces - f,
    {
        let a = positions[3 * f];
        let b = positions[3 * f + 1];
        let c = positions[3 * f + 2];
        let n = flat_normal(a, b, c);
        r.push(n);
        r.push(n);
        r.push(n);
        proof {
            assert forall|i: int| 3 * f <= i < 3 * f + 3 implies #[trigger] r@[i]
                == face_normal_at(positions@, i) by {
                assert(i / 3 == f as int) by (nonlinear_arith)
                    requires
                        3 * (f as int) <= i < 3 * (f as int) + 3,
                ;
            }
        }
        f = f + 1;
    }
    while r.len() < total
        invariant
            3 * faces <= r@.len() <= total,
            total == positions@.len(),
            faces == positions@.len() / 3,
            forall|i: int|
                0 <= i < 3 * faces ==> #[trigger] r@[i] == face_normal_at(positions@, i),
            forall|i: int|
                3 * faces <= i < r@.len() ==> #[trigger] r@[i] == (FxVec3 { x: 0, y: 0, z: 0 }),
        decreases total - r.len(),
    {
        r.push(FxVec3 { x: 0, y: 0, z: 0 });
    }
    r
}

/// Replaces an indexed attribute list by one entry per index, in index
/// order; fails when an index lies outside the list.
pub fn duplicate_attribute<T: Copy>(values: &Vec<T>, indices: &Vec<u32>) -> (r: Result<
    Vec<T>,
    VrmError,
>)
    ensures
        match r {
            Result::Ok(out) => {
                &&& out@.len() == indices@.len()
                &&& forall|k: int|
                    0 <= k < indices@.len() ==> #[trigger] indices@[k] < values@.len()
                &&& forall|k: int|
                    0 <= k < indices@.len() ==> #[trigger] out@[k] == values@[indices@[k] as int]
            },
            Result::Err(e) => e == VrmError::AccessorOutOfBounds && (exists|k: int|
                0 <= k < indices@.len() && indices@[k] >= values@.len()),
        },
{
    let mut out: Vec<T> = Vec::new();
    let mut k: usize = 0;
    while k < indices.len()
        invariant
            k <= indices@.len(),
            out@.len() == k,
            forall|j: int| 0 <= j < k ==> #[trigger] indices@[j] < values@.len(),
            forall|j: int| 0 <= j < k ==> #[trigger] out@[j] == values@[indices@[j] as int],
        decreases indices@.len() - k,
    {
        let ix: u32 = indices[k];
        if (ix as usize) >= values.len() {
            return Result::Err(VrmError::AccessorOutOfBounds);
        }
        out.push(values[ix as usize]);
        proof {
            assert(indices@[k as int] == ix);
            assert(out@[k as int] == values@[ix as int]);

        }
        k = k + 1;
    }
    Result::Ok(out)
}

/// Index data in the widths the meshes keep (8-bit input is widened to 16).
#[derive(Clone, Debug, PartialEq, Eq)]
pub enum IndexData {
    /// 16-bit indices.
    U16(Vec<u16>),
    /// 32-bit indices.
    U32(Vec<u32>),
}

impl IndexData {
    /// Number of indices.
    pub fn len(&self) -> (r: usize)
        ensures
            r == self.len_spec(),
    {
        match self {
            IndexData::U16(v) => v.len(),
            IndexData::U32(v) => v.len(),
        }
    }

    /// Number of indices.
    pub open spec fn len_spec(self) -> int {
        match self {
            IndexData::U16(v) => v@.len() as int,
            IndexData::U32(v) => v@.len() as int,
        }
    }

    /// The indices widened to u32.
    pub fn to_u32(&self) -> (r: Vec<u32>)
        ensures
            r@.len() == self.len_spec(),
            forall|k: int| 0 <= k < r@.len() ==> r@[k] == self.index_spec(k),
    {
        match self {
            IndexData::U16(v) => {
                let mut out: Vec<u32> = Vec::new();
                let mut k: usize = 0;
                while k < v.len()
                    invariant
                        k <= v@.len(),
                        out@.len() == k,
                        forall|j: int| 0 <= j < k ==> out@[j] == v@[j] as u32,
                    decreases v@.len() - k,
                {
                    out.push(v[k] as u32);
                    k = k + 1;
                }
                out
            },
            IndexData::U32(v) => {
                let mut out: Vec<u32> = Vec::new();
                let mut k: usize = 0;
                while k < v.len()
                    invariant
                        k <= v@.len(),
                        out@.len() == k,
                        forall|j: int| 0 <= j < k ==> out@[j] == v@[j],
                    decreases v@.len() - k,
                {
                    out.push(v[k]);
                    k = k + 1;
                }
                out
            },
        }
    }

    /// The index at position k, widened.
    pub open spec fn index_spec(self, k: int) -> u32 {
        match self {
            IndexData::U16(v) => v@[k] as u32,
            IndexData::U32(v) => v@[k],
        }
    }
}

/// One assembled mesh primitive.
#[derive(Clone, Debug, PartialEq, Eq)]
pub struct MeshPrimitive {
    /// Its topology.
    pub topology: Topology,
    /// Vertex positions.
    pub positions: Vec<FxVec3>,
    /// Vertex normals, when present or computed.
    pub normals: Option<Vec<FxVec3>>,
    /// Vertex tangents, when present.
    pub tangents: Option<Vec<FxVec4>>,
    /// Texture coordinates, when present.
    pub uvs: Option<Vec<(i64, i64)>>,
    /// Joint indices, when skinned.
    pub joints: Option<Vec<[u16; 4]>>,
    /// Joint weights, when skinned.
    pub weights: Option<Vec<FxVec4>>,
    /// Index data, when indexed.
    pub indices: Option<IndexData>,
    /// The packed morph targets, when any are declared.
    pub morph: Option<MorphTargetBlock>,
    /// Morph target names, when supplied and consistent.
    pub morph_target_names: Option<Vec<Vec<u8>>>,
    /// The material the primitive uses.
    pub material: Option<usize>,
}

impl MeshPrimitive {
    /// Number of vertices.
    pub fn vertex_count(&self) -> (r: usize)
        ensures
            r == self.positions@.len(),
    {
        self.positions.len()
    }

    /// The structural mesh invariant: every attribute list and every morph
    /// target list is index-aligned with the positions, and names (when
    /// kept) match the target count.
    pub open spec fn wf(self) -> bool {
        &&& match self.normals {
            Option::Some(n) => n@.len() == self.positions@.len(),
            Option::None => true,
        }
        &&& match self.tangents {
            Option::Some(t) => t@.len() == self.positions@.len(),
            Option::None => true,
        }
        &&& match self.uvs {
            Option::Some(u) => u@.len() == self.positions@.len(),
            Option::None => true,
        }
        &&& match self.joints {
            Option::Some(j) => j@.len() == self.positions@.len(),
            Option::None => true,
        }
        &&& match self.weights {
            Option::Some(w) => w@.len() == self.positions@.len(),
            Option::None => true,
        }
        &&& match self.morph {
            Option::Some(m) => m.wf() && m.vertex_count == self.positions@.len(),
            Option::None => true,
        }
        &&& match (self.morph_target_names, self.morph) {
            (Option::Some(names), Option::Some(m)) => names@.len() == m.targets@.len(),
            (Option::Some(_), Option::None) => false,
            _ => true,
        }
    }
}

} // verus!
