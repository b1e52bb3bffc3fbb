//! Extra blend shapes: a JSON library of sparse per-vertex position
//! deltas, applied to a mesh as replacement morph targets.

use vstd::prelude::*;

use crate::container::copy_range;
use crate::error::VrmError;
use crate::geom::FxVec3;
use crate::json::{parse_json, JsonValue};
use crate::mesh::{build_morph_block, MeshPrimitive, MorphAttributes};

verus! {

/// One blend shape: a name and sparse position deltas.
#[derive(Clone, Debug, PartialEq, Eq)]
pub struct BlendShape {
    /// The shape-key name.
    pub name: Vec<u8>,
    /// The vertex count of the mesh it applies to.
    pub vertex_count: u32,
    /// The authored weight.
    pub weight: i64,
    /// The affected vertex indices.
    pub indices: Vec<u32>,
    /// The position deltas, index-aligned with `indices`.
    pub positions: Vec<FxVec3>,
}

/// A library of blend shapes.
#[derive(Clone, Debug, PartialEq, Eq)]
pub struct BlendShapeLibrary {
    /// The shapes, in document order.
    pub blend_shapes: Vec<BlendShape>,
}

/// Reads one 3-vector object with x, y, z members.
fn read_vec3_obj(v: &JsonValue) -> (r: FxVec3)
{
    let x: i64 = match v.get("x".as_bytes()) {
        Option::Some(f) => match f.as_fx() {
            Option::Some(s) => s,
            Option::None => 0,
        },
        Option::None => 0,
    };
    let y: i64 = match v.get("y".as_bytes()) {
        Option::Some(f) => match f.as_fx() {
            Option::Some(s) => s,
            Option::None => 0,
        },
        Option::None => 0,
    };
    let z: i64 = match v.get("z".as_bytes()) {
        Option::Some(f) => match f.as_fx() {
            Option::Some(s) => s,
            Option::None => 0,
        },
        Option::None => 0,
    };
    FxVec3 { x, y, z }
}

impl BlendShapeLibrary {
    /// Parses a blend-shape library from JSON bytes.
    pub fn from_slice(src: &Vec<u8>) -> (r: Result<BlendShapeLibrary, VrmError>)
        ensures
            match r {
                Result::Ok(_) => true,
                Result::Err(e) => e == VrmError::MalformedJson,
            },
    {
        let root = match parse_json(src) {
            Result::Ok(v) => v,
            Result::Err(e) => {
                return Result::Err(e);
            },
        };
        let list = match root.get("blendShapeDatas".as_bytes()) {
            Option::Some(l) => l,
            Option::None => {
                return Result::Err(VrmError::MalformedJson);
            },
        };
        let items = match list.as_array() {
            Option::Some(a) => a,
            Option::None => {
                return Result::Err(VrmError::MalformedJson);
            },
        };
        let mut blend_shapes: Vec<BlendShape> = Vec::new();
        let mut i: usize = 0;
        while i < items.len()
            decreases items@.len() - i,
        {
            let item = &items[i];
            let name: Vec<u8> = match item.get("shapeKeyName".as_bytes()) {
                Option::Some(n) => match n.as_str_bytes() {
                    Option::Some(b) => copy_range(b, 0, b.len()),
                    Option::None => Vec::new(),
                },
                Option::None => Vec::new(),
            };
            let weight: i64 = match item.get("blendShapeWeight".as_bytes()) {
                Option::Some(w) => match w.as_fx() {
                    Option::Some(s) => s,
                    Option::None => 0,
                },
                Option::None => 0,
            };
            let vertex_count: u32 = match item.get("vertexCount".as_bytes()) {
                Option::Some(c) => match c.as_index() {
                    Option::Some(n) => {
                        if n <= u32::MAX as usize {
                            n as u32
                        } else {
                            0
                        }
                    },
                    Option::None => 0,
                },
                Option::None => 0,
            };
            let mut indices: Vec<u32> = Vec::new();
            match item.get("elements".as_bytes()) {
                Option::Some(e) => match e.as_array() {
                    Option::Some(arr) => {
                        let mut k: usize = 0;
                        while k < arr.len()
                            decreases arr@.len() - k,
                        {
                            match arr[k].as_index() {
                                Option::Some(n) => {
                                    if n <= u32::MAX as usize {
                                        indices.push(n as u32);
                                    }
                                },
                                Option::None => {},
                            }
                            k = k + 1;
                        }
                    },
                    Option::None => {},
                },
                Option::None => {},
            }
            let mut positions: Vec<FxVec3> = Vec::new();
            match item.get("v3_vertices".as_bytes()) {
                Option::Some(vv) => match vv.as_array() {
                    Option::Some(arr) => {
                        let mut k: usize = 0;
                        while k < arr.len()
                            decreases arr@.len() - k,
                        {
                            positions.push(read_vec3_obj(&arr[k]));
                            k = k + 1;
                        }
                    },
                    Option::None => {},
                },
                Option::None => {},
            }
            blend_shapes.push(BlendShape { name, vertex_count, weight, indices, positions });
            i = i + 1;
        }
        Result::Ok(BlendShapeLibrary { blend_shapes })
    }
}

/// The position delta the first n sparse (index, delta) pairs of a shape
/// leave at vertex v: the last written pair wins, vertices never written
/// stay at zero.
pub open spec fn sparse_delta(shape: BlendShape, n: int, v: int) -> FxVec3
    decreases n,
{
    if n <= 0 {
        FxVec3 { x: 0, y: 0, z: 0 }
    } else if n - 1 < shape.indices@.len() && n - 1 < shape.positions@.len() && shape.indices@[n
        - 1] == v {
        shape.positions@[n - 1]
    } else {
        sparse_delta(shape, n - 1, v)
    }
}

/// The number of usable sparse pairs of a shape.
pub open spec fn pair_count_spec(shape: BlendShape) -> int {
    if shape.indices@.len() < shape.positions@.len() {
        shape.indices@.len() as int
    } else {
        shape.positions@.len() as int
    }
}

/// One replacement target comes from one matching shape: its name, and
/// per-vertex position deltas from the shape's sparse pairs.
pub open spec fn target_from_shape(
    shapes: Seq<BlendShape>,
    vertex_count: int,
    name: Vec<u8>,
    target: Seq<MorphAttributes>,
) -> bool {
    exists|si: int|
        0 <= si < shapes.len() && (#[trigger] shapes[si]).vertex_count == vertex_count && name@
            == shapes[si].name@ && (forall|v: int|
            0 <= v < target.len() ==> #[trigger] target[v] == (MorphAttributes {
                position: sparse_delta(shapes[si], pair_count_spec(shapes[si]), v),
                normal: FxVec3 { x: 0, y: 0, z: 0 },
                tangent: FxVec3 { x: 0, y: 0, z: 0 },
            }))
}

/// Replaces a mesh's morph targets with the library shapes whose vertex
/// count matches the mesh: each shape becomes one target whose position
/// deltas come from the shape's sparse (index, delta) pairs, and the
/// target names become the shape names. Geometry is untouched.
pub fn apply_blend_shapes(mesh: &mut MeshPrimitive, shapes: &Vec<BlendShape>)
    ensures
        final(mesh).positions == old(mesh).positions,
        final(mesh).normals == old(mesh).normals,
        final(mesh).indices == old(mesh).indices,
        old(mesh).wf() ==> final(mesh).wf(),
        match (final(mesh).morph, final(mesh).morph_target_names) {
            (Option::Some(m), Option::Some(names)) => {
                &&& m.targets@.len() == names@.len()
                &&& m.vertex_count == old(mesh).positions@.len()
                &&& forall|t: int|
                    0 <= t < m.targets@.len() ==> target_from_shape(
                        shapes@,
                        old(mesh).positions@.len() as int,
                        names@[t],
                        (#[trigger] m.targets@[t])@,
                    )
            },
            _ => false,
        },
{
    let vertex_count: usize = mesh.positions.len();
    let mut names: Vec<Vec<u8>> = Vec::new();
    let mut targets: Vec<Vec<MorphAttributes>> = Vec::new();
    let mut s: usize = 0;
    while s < shapes.len()
        invariant
            s <= shapes@.len(),
            names@.len() == targets@.len(),
            vertex_count == mesh.positions@.len(),
            forall|t: int|
                0 <= t < targets@.len() ==> (#[trigger] targets@[t])@.len() == vertex_count,
            forall|t: int|
                0 <= t < targets@.len() ==> target_from_shape(
                    shapes@,
                    vertex_count as int,
                    names@[t],
                    (#[trigger] targets@[t])@,
                ),
        decreases shapes@.len() - s,
    {
        let shape = &shapes[s];
        if shape.vertex_count as usize == vertex_count {
            let mut elements: Vec<MorphAttributes> = Vec::new();
            let mut v: usize = 0;
            while v < vertex_count
                invariant
                    v <= vertex_count,
                    elements@.len() == v,
                    (s as int) < shapes@.len(),
                    shape == shapes@[s as int],
                    forall|u: int|
                        0 <= u < v ==> #[trigger] elements@[u] == (MorphAttributes {
                            position: sparse_delta(*shape, 0, u),
                            normal: FxVec3 { x: 0, y: 0, z: 0 },
                            tangent: FxVec3 { x: 0, y: 0, z: 0 },
                        }),
                decreases vertex_count - v,
            {
                elements.push(MorphAttributes::zero());
                v = v + 1;
            }
            let pair_count: usize = if shape.indices.len() < shape.positions.len() {
                shape.indices.len()
            } else {
                shape.positions.len()
            };
            let mut k: usize = 0;
            while k < pair_count
                invariant
                    k <= pair_count,
                    (s as int) < shapes@.len(),
                    shape == shapes@[s as int],
                    pair_count == pair_count_spec(*shape),
                    pair_count <= shape.indices@.len(),
                    pair_count <= shape.positions@.len(),
                    elements@.len() == vertex_count,
                    forall|u: int|
                        0 <= u < vertex_count ==> #[trigger] elements@[u] == (MorphAttributes {
                            position: sparse_delta(*shape, k as int, u),
                            normal: FxVec3 { x: 0, y: 0, z: 0 },
                            tangent: FxVec3 { x: 0, y: 0, z: 0 },
                        }),
                decreases pair_count - k,
            {
                let ix: u32 = shape.indices[k];
                if (ix as usize) < vertex_count {
                    let old_elem: MorphAttributes = elements[ix as usize];
                    elements.set(
                        ix as usize,
                        MorphAttributes {
                            position: shape.positions[k],
                            normal: old_elem.normal,
                            tangent: old_elem.tangent,
                        },
                    );
                }
                k = k + 1;
                proof {
                    assert forall|u: int|
                        0 <= u < vertex_count implies #[trigger] elements@[u] == (MorphAttributes {
                        position: sparse_delta(*shape, k as int, u),
                        normal: FxVec3 { x: 0, y: 0, z: 0 },
                        tangent: FxVec3 { x: 0, y: 0, z: 0 },
                    }) by {
                        if shape.indices@[k - 1] == u {
                        } else {
                            assert(sparse_delta(*shape, k as int, u) == sparse_delta(
                                *shape,
                                k - 1,
                                u,
                            ));
                        }
                    }
                }
            }
            let name = copy_range(&shape.name, 0, shape.name.len());
            proof {
                assert(shape.name@.subrange(0, shape.name@.len() as int) =~= shape.name@);
            }
            let ghost prev_names = names@;
            let ghost prev_targets = targets@;
            names.push(name);
            targets.push(elements);
            proof {
                assert(target_from_shape(
                    shapes@,
                    vertex_count as int,
                    names@[names@.len() - 1],
                    (targets@[targets@.len() - 1])@,
                )) by {
                    assert((shapes@[s as int]).vertex_count == vertex_count);
                }
                assert forall|t: int|
                    0 <= t < targets@.len() implies target_from_shape(
                    shapes@,
                    vertex_count as int,
                    names@[t],
                    (#[trigger] targets@[t])@,
                ) by {
                    if t < prev_targets.len() {
                        assert(names@[t] == prev_names[t]);
                        assert(targets@[t] == prev_targets[t]);
                    }
                }
            }
        }
        s = s + 1;
    }
    let block = build_morph_block(&targets, vertex_count);
    proof {
        assert forall|t: int|
            0 <= t < block.targets@.len() implies target_from_shape(
            shapes@,
            vertex_count as int,
            names@[t],
            (#[trigger] block.targets@[t])@,
        ) by {
            assert((block.targets@[t])@ =~= (targets@[t])@);
        }
    }
    mesh.morph = Option::Some(block);
    mesh.morph_target_names = Option::Some(names);
}

} // verus!
