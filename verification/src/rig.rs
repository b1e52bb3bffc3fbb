//! The humanoid rig: semantic bones mapped onto scene nodes, and the gaze
//! target hierarchy synthesized under the head bone.

use vstd::prelude::*;

use crate::document::{HumanBoneJson, HumanoidBone, HumanoidJson, LookAtJson, LookAtModeJson};
use crate::gaze::LookAtRangeMap;
use crate::geom::FxQuat;

verus! {

/// The fifteen bones a complete humanoid must map.
pub fn required_bones() -> (r: Vec<HumanoidBone>)
    ensures
        r@.len() == 15,
{
    let mut r: Vec<HumanoidBone> = Vec::new();
    r.push(HumanoidBone::Hips);
    r.push(HumanoidBone::Spine);
    r.push(HumanoidBone::Head);
    r.push(HumanoidBone::LeftUpperLeg);
    r.push(HumanoidBone::LeftLowerLeg);
    r.push(HumanoidBone::LeftFoot);
    r.push(HumanoidBone::RightUpperLeg);
    r.push(HumanoidBone::RightLowerLeg);
    r.push(HumanoidBone::RightFoot);
    r.push(HumanoidBone::LeftUpperArm);
    r.push(HumanoidBone::LeftLowerArm);
    r.push(HumanoidBone::LeftHand);
    r.push(HumanoidBone::RightUpperArm);
    r.push(HumanoidBone::RightLowerArm);
    r.push(HumanoidBone::RightHand);
    r
}

/// The semantic bone mapping of one scene: bone to node index.
#[derive(Clone, Debug, PartialEq, Eq)]
pub struct Humanoid {
    /// Bone entries, in table order.
    pub bones: Vec<(HumanoidBone, usize)>,
}

/// The extension table maps `bone` to node index `n`.
pub open spec fn table_maps(table: Seq<(HumanoidBone, HumanBoneJson)>, bone: HumanoidBone, n: int) -> bool {
    exists|j: int| 0 <= j < table.len() && #[trigger] table[j] == (bone, HumanBoneJson { node: n as u32 })
}

impl Humanoid {
    /// The rig maps `bone` to node index `n`.
    pub open spec fn maps(self, bone: HumanoidBone, n: int) -> bool {
        exists|k: int| 0 <= k < self.bones@.len() && #[trigger] self.bones@[k] == (bone, n as usize)
    }

    /// The rig has some node for `bone`.
    pub open spec fn has_bone(self, bone: HumanoidBone) -> bool {
        exists|k: int| 0 <= k < self.bones@.len() && (#[trigger] self.bones@[k]).0 == bone
    }

    /// Every mapped node index lies inside the node set.
    pub open spec fn wf(self, node_count: int) -> bool {
        forall|k: int| 0 <= k < self.bones@.len() ==> (#[trigger] self.bones@[k]).1 < node_count
    }

    /// The node mapped for `bone`, by first table entry.
    pub fn find(&self, bone: HumanoidBone) -> (r: Option<usize>)
        ensures
            (r is Some) <==> self.has_bone(bone),
            match r {
                Option::Some(n) => self.maps(bone, n as int),
                Option::None => true,
            },
    {
        let mut k: usize = 0;
        while k < self.bones.len()
            invariant
                k <= self.bones@.len(),
                forall|j: int| 0 <= j < k ==> (#[trigger] self.bones@[j]).0 != bone,
            decreases self.bones@.len() - k,
        {
            if self.bones[k].0 == bone {
                return Option::Some(self.bones[k].1);
            }
            k = k + 1;
        }
        Option::None
    }
}

/// Everything mapping the bone table promises: every mapped index lies in
/// the node set, every table entry with a valid index is kept, and
/// everything kept comes from the table.
pub open spec fn humanoid_built(table: HumanoidJson, node_count: int, r: Humanoid) -> bool {
    &&& r.wf(node_count)
    &&& forall|j: int|
        0 <= j < table.human_bones@.len() && (#[trigger] table.human_bones@[j]).1.node
            < node_count ==> r.maps(table.human_bones@[j].0, table.human_bones@[j].1.node as int)
    &&& forall|k: int|
        0 <= k < r.bones@.len() ==> table_maps(
            table.human_bones@,
            (#[trigger] r.bones@[k]).0,
            r.bones@[k].1 as int,
        )
}

/// Maps the extension's bone table onto the node set: an entry whose node
/// index is out of range is dropped (a warning, not a failure), every other
/// entry is kept in table order.
pub fn build_humanoid(table: &HumanoidJson, node_count: usize) -> (r: Humanoid)
    ensures
        humanoid_built(*table, node_count as int, r),
        r.wf(node_count as int),
{
    let mut bones: Vec<(HumanoidBone, usize)> = Vec::new();
    let mut j: usize = 0;
    while j < table.human_bones.len()
        invariant
            j <= table.human_bones@.len(),
            forall|i: int|
                0 <= i < j && (#[trigger] table.human_bones@[i]).1.node < node_count ==> exists|
                    k: int,
                |
                    0 <= k < bones@.len() && #[trigger] bones@[k] == (
                        table.human_bones@[i].0,
                        table.human_bones@[i].1.node as usize,
                    ),
            forall|k: int| 0 <= k < bones@.len() ==> (#[trigger] bones@[k]).1 < node_count,
            forall|k: int|
                0 <= k < bones@.len() ==> table_maps(
                    table.human_bones@,
                    (#[trigger] bones@[k]).0,
                    bones@[k].1 as int,
                ),
        decreases table.human_bones@.len() - j,
    {
        let (bone, entry): (HumanoidBone, HumanBoneJson) = table.human_bones[j];
        if (entry.node as usize) < node_count {
            let ghost prev = bones@;
            bones.push((bone, entry.node as usize));
            proof {
                assert(table.human_bones@[j as int] == (bone, entry));
                assert(table_maps(table.human_bones@, bone, entry.node as int));
                assert(bones@[prev.len() as int] == (bone, entry.node as usize));
                assert forall|i: int|
                    0 <= i <= j && (#[trigger] table.human_bones@[i]).1.node < node_count implies exists|
                    k: int,
                |
                    0 <= k < bones@.len() && #[trigger] bones@[k] == (
                        table.human_bones@[i].0,
                        table.human_bones@[i].1.node as usize,
                    ) by {
                    if i == j as int {
                        assert(bones@[prev.len() as int] == (
                            table.human_bones@[i].0,
                            table.human_bones@[i].1.node as usize,
                        ));
                    } else {
                        let k0 = choose|k: int|
                            0 <= k < prev.len() && #[trigger] prev[k] == (
                                table.human_bones@[i].0,
                                table.human_bones@[i].1.node as usize,
                            );
                        assert(bones@[k0] == prev[k0]);
                    }
                }
            }
        }
        j = j + 1;
    }
    Humanoid { bones }
}

/// A bone table that includes a bone with a valid node index always ends
/// up in the built rig: in particular, a table carrying all fifteen
/// required bones with valid indices is accepted in full.
pub proof fn lemma_valid_bones_accepted(
    table: HumanoidJson,
    node_count: int,
    r: Humanoid,
    bone: HumanoidBone,
    j: int,
)
    requires
        0 <= j < table.human_bones@.len(),
        table.human_bones@[j].0 == bone,
        (table.human_bones@[j].1).node < node_count,
        r.wf(node_count),
        forall|i: int|
            0 <= i < table.human_bones@.len() && (#[trigger] table.human_bones@[i]).1.node
                < node_count ==> r.maps(
                table.human_bones@[i].0,
                table.human_bones@[i].1.node as int,
            ),
    ensures
        r.maps(bone, table.human_bones@[j].1.node as int),
        r.has_bone(bone),
{
    assert(r.maps(table.human_bones@[j].0, table.human_bones@[j].1.node as int));
    let n = table.human_bones@[j].1.node as int;
    let k = choose|k: int|
        0 <= k < r.bones@.len() && #[trigger] r.bones@[k] == (bone, n as usize);
    assert(r.bones@[k].0 == bone);
}

/// The arena index of the node a gaze component points at.
#[derive(Clone, Copy, Debug, PartialEq, Eq, Structural)]
pub struct LookAtTarget(pub usize);

/// The eye's resting rotation, composed with the gaze rotation each frame.
#[derive(Clone, Copy, Debug, PartialEq, Eq, Structural)]
pub struct TransformLookAt {
    /// The base rotation offset.
    pub offset: FxQuat,
}

/// One eye wired for gaze.
#[derive(Clone, Copy, Debug)]
pub struct EyeGaze {
    /// The eye bone's node.
    pub eye_node: usize,
    /// The per-eye offset node under the look target.
    pub offset_node: usize,
    /// The eye's calibration (flipped for the right eye).
    pub range_map: LookAtRangeMap,
    /// Bone-mode gaze: the resting rotation to compose with.
    pub transform_look_at: Option<TransformLookAt>,
}

/// The gaze hierarchy synthesized under the head bone.
#[derive(Clone, Debug)]
pub struct GazeNodes {
    /// The mapped head node.
    pub head: usize,
    /// The pivot node parented under the head, at the declared offset.
    pub pivot: usize,
    /// The look-target node under the pivot.
    pub target: usize,
    /// The wired eyes (left, then right, when mapped).
    pub eyes: Vec<EyeGaze>,
}

/// Whether gaze drives bones for this document.
pub fn gaze_is_bone_mode(look_at: &LookAtJson) -> (r: bool)
    ensures
        r <==> look_at.mode == LookAtModeJson::Bone,
{
    match look_at.mode {
        LookAtModeJson::Bone => true,
        LookAtModeJson::Expression => false,
    }
}

} // verus!
