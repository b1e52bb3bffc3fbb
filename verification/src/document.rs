//! The typed document: what the JSON scene description declares.
//!
//! Extraction from the JSON value tree is lenient the way the original glTF
//! consumers are: unknown fields are ignored and malformed optional fields
//! fall back to their defaults. Index references are stored raw here and
//! validated by the stages that resolve them.

use vstd::prelude::*;
use vstd::string::StringSliceAdditionalSpecFns;

use crate::container::copy_range;
use crate::error::VrmError;
use crate::fixed::FX_ONE;
use crate::geom::FxQuat;
use crate::geom::FxVec3;
use crate::json::{bytes_eq, fx_of_value, index_of_value, json_member, JsonValue};

verus! {

/// Compares raw UTF-8 bytes with a string literal.
pub fn bytes_eq_str(a: &[u8], s: &str) -> (r: bool)
    ensures
        r <==> a@ == s.spec_bytes(),
{
    bytes_eq(a, s.as_bytes())
}

/// A reference to a texture plus its texture-coordinate set.
#[derive(Clone, Copy, Debug, PartialEq, Eq, Structural)]
pub struct TextureInfo {
    /// Index into the document's texture list.
    pub index: u32,
    /// Texture-coordinate set used to sample it.
    pub tex_coord: u32,
}

impl Default for TextureInfo {
    /// Texture 0 sampled with coordinate set 0.
    fn default() -> (r: TextureInfo)
        ensures
            r == (TextureInfo { index: 0, tex_coord: 0 }),
    {
        TextureInfo { index: 0, tex_coord: 0 }
    }
}

/// How a toon material draws outlines (parsed but not consumed downstream).
#[derive(Clone, Copy, Debug, PartialEq, Eq, Structural)]
pub enum OutlineWidthMode {
    /// No outline.
    NoOutline,
    /// Outline width in world units.
    WorldCoordinates,
    /// Outline width in screen units.
    ScreenCoordinates,
}

impl Default for OutlineWidthMode {
    /// No outline.
    fn default() -> (r: OutlineWidthMode)
        ensures
            r == OutlineWidthMode::NoOutline,
    {
        OutlineWidthMode::NoOutline
    }
}

/// A shading-shift texture reference with its scale.
#[derive(Clone, Copy, Debug, PartialEq, Eq, Structural)]
pub struct ShadingShiftTextureInfo {
    /// The texture reference.
    pub texture_info: TextureInfo,
    /// Scale applied to the sampled shift (Q47.16).
    pub scale: i64,
}

impl Default for ShadingShiftTextureInfo {
    /// Texture 0 with scale 1.
    fn default() -> (r: ShadingShiftTextureInfo)
        ensures
            r == (ShadingShiftTextureInfo {
                texture_info: TextureInfo { index: 0, tex_coord: 0 },
                scale: FX_ONE as i64,
            }),
    {
        ShadingShiftTextureInfo {
            texture_info: TextureInfo { index: 0, tex_coord: 0 },
            scale: FX_ONE,
        }
    }
}

/// The toon-material extension block of one material.
#[derive(Clone, Debug, PartialEq, Eq)]
pub struct MToonExtensionJson {
    /// Declared extension version.
    pub spec_version: Vec<u8>,
    /// Whether transparent geometry still writes depth.
    pub transparent_with_z_write: bool,
    /// Draw-ordering bias.
    pub render_queue_offset_number: i64,
    /// Shade (darkened) color factor.
    pub shade_color_factor: FxVec3,
    /// Shade color texture.
    pub shade_multiply_texture: Option<TextureInfo>,
    /// Base shading boundary shift (Q47.16).
    pub shading_shift_factor: i64,
    /// Texture-driven shading shift.
    pub shading_shift_texture: Option<ShadingShiftTextureInfo>,
    /// Banding factor (Q47.16).
    pub shading_toony_factor: i64,
    /// Global-illumination equalization factor (Q47.16).
    pub gi_equalization_factor: i64,
    /// Matcap color factor.
    pub matcap_factor: FxVec3,
    /// Matcap texture.
    pub matcap_texture: Option<TextureInfo>,
    /// Parametric rim color factor.
    pub parametric_rim_color_factor: FxVec3,
    /// Rim multiply texture.
    pub rim_multiply_texture: Option<TextureInfo>,
    /// Rim lighting mix factor (Q47.16).
    pub rim_lighting_mix_factor: i64,
    /// Parametric rim fresnel power (Q47.16).
    pub parametric_rim_fresnel_power_factor: i64,
    /// Parametric rim lift (Q47.16).
    pub parametric_rim_lift_factor: i64,
    /// Outline mode.
    pub outline_width_mode: OutlineWidthMode,
    /// Outline width factor (Q47.16).
    pub outline_width_factor: i64,
    /// Outline width texture.
    pub outline_width_multiply_texture: Option<TextureInfo>,
    /// Outline color factor.
    pub outline_color_factor: FxVec3,
    /// Outline lighting mix (Q47.16).
    pub outline_lighting_mix_factor: i64,
    /// UV-animation mask texture.
    pub uv_animation_mask_texture: Option<TextureInfo>,
    /// UV scroll speed along x (Q47.16).
    pub uv_animation_scroll_x_speed_factor: i64,
    /// UV scroll speed along y (Q47.16).
    pub uv_animation_scroll_y_speed_factor: i64,
    /// UV rotation speed (Q47.16).
    pub uv_animation_rotation_speed_factor: i64,
}

impl Default for MToonExtensionJson {
    /// The defaults the extension specifies (0.9 is 58982 in Q47.16).
    fn default() -> (r: MToonExtensionJson)
        ensures
            r.transparent_with_z_write == false,
            r.render_queue_offset_number == 0,
            r.shade_color_factor == (FxVec3 {
                x: FX_ONE as i64,
                y: FX_ONE as i64,
                z: FX_ONE as i64,
            }),
            r.shading_shift_factor == 0,
            r.shading_toony_factor == 58982,
            r.gi_equalization_factor == 58982,
            r.matcap_factor == (FxVec3 { x: 0, y: 0, z: 0 }),
            r.parametric_rim_color_factor == (FxVec3 { x: 0, y: 0, z: 0 }),
            r.rim_lighting_mix_factor == 0,
            r.parametric_rim_fresnel_power_factor == FX_ONE as i64,
            r.parametric_rim_lift_factor == 0,
            r.outline_width_mode == OutlineWidthMode::NoOutline,
            r.outline_lighting_mix_factor == FX_ONE as i64,
            r.uv_animation_scroll_x_speed_factor == 0,
            r.uv_animation_scroll_y_speed_factor == 0,
            r.uv_animation_rotation_speed_factor == 0,
            r.shade_multiply_texture is None,
            r.shading_shift_texture is None,
            r.matcap_texture is None,
            r.rim_multiply_texture is None,
            r.outline_width_multiply_texture is None,
            r.uv_animation_mask_texture is None,
    {
        MToonExtensionJson {
            spec_version: Vec::new(),
            transparent_with_z_write: false,
            render_queue_offset_number: 0,
            shade_color_factor: FxVec3 { x: FX_ONE, y: FX_ONE, z: FX_ONE },
            shade_multiply_texture: Option::None,
            shading_shift_factor: 0,
            shading_shift_texture: Option::None,
            shading_toony_factor: 58982,
            gi_equalization_factor: 58982,
            matcap_factor: FxVec3 { x: 0, y: 0, z: 0 },
            matcap_texture: Option::None,
            parametric_rim_color_factor: FxVec3 { x: 0, y: 0, z: 0 },
            rim_multiply_texture: Option::None,
            rim_lighting_mix_factor: 0,
            parametric_rim_fresnel_power_factor: FX_ONE,
            parametric_rim_lift_factor: 0,
            outline_width_mode: OutlineWidthMode::NoOutline,
            outline_width_factor: 0,
            outline_width_multiply_texture: Option::None,
            outline_color_factor: FxVec3 { x: 0, y: 0, z: 0 },
            outline_lighting_mix_factor: FX_ONE,
            uv_animation_mask_texture: Option::None,
            uv_animation_scroll_x_speed_factor: 0,
            uv_animation_scroll_y_speed_factor: 0,
            uv_animation_rotation_speed_factor: 0,
        }
    }
}

/// The extension table of one material.
#[derive(Clone, Debug, PartialEq, Eq)]
pub struct MaterialExtensions {
    /// The toon block, when the material carries one.
    pub mtoon: Option<MToonExtensionJson>,
}

/// One material as the extension parser sees it.
#[derive(Clone, Debug, PartialEq, Eq)]
pub struct ExtendedMaterial {
    /// Its extension table.
    pub extensions: MaterialExtensions,
}

/// The semantic bones of a humanoid rig.
#[derive(Clone, Copy, Debug, PartialEq, Eq, Structural, Hash)]
#[allow(missing_docs)]
pub enum HumanoidBone {
    Hips,
    Spine,
    Chest,
    UpperChest,
    Neck,
    Head,
    LeftEye,
    RightEye,
    Jaw,
    LeftUpperLeg,
    LeftLowerLeg,
    LeftFoot,
    LeftToes,
    RightUpperLeg,
    RightLowerLeg,
    RightFoot,
    RightToes,
    LeftShoulder,
    LeftUpperArm,
    LeftLowerArm,
    LeftHand,
    RightShoulder,
    RightUpperArm,
    RightLowerArm,
    RightHand,
    LeftThumbMetacarpal,
    LeftThumbProximal,
    LeftThumbDistal,
    LeftIndexProximal,
    LeftIndexIntermediate,
    LeftIndexDistal,
    LeftMiddleProximal,
    LeftMiddleIntermediate,
    LeftMiddleDistal,
    LeftRingProximal,
    LeftRingIntermediate,
    LeftRingDistal,
    LeftLittleProximal,
    LeftLittleIntermediate,
    LeftLittleDistal,
    RightThumbMetacarpal,
    RightThumbProximal,
    RightThumbDistal,
    RightIndexProximal,
    RightIndexIntermediate,
    RightIndexDistal,
    RightMiddleProximal,
    RightMiddleIntermediate,
    RightMiddleDistal,
    RightRingProximal,
    RightRingIntermediate,
    RightRingDistal,
    RightLittleProximal,
    RightLittleIntermediate,
    RightLittleDistal,
}

/// The semantic bone a camel-case table name denotes: the closed bone
/// vocabulary, with every other name unmapped.
pub open spec fn humanoid_bone_of(name: Seq<u8>) -> Option<HumanoidBone> {
    if name == "hips".spec_bytes() {
        Option::Some(HumanoidBone::Hips)
    } else if name == "spine".spec_bytes() {
        Option::Some(HumanoidBone::Spine)
    } else if name == "chest".spec_bytes() {
        Option::Some(HumanoidBone::Chest)
    } else if name == "upperChest".spec_bytes() {
        Option::Some(HumanoidBone::UpperChest)
    } else if name == "neck".spec_bytes() {
        Option::Some(HumanoidBone::Neck)
    } else if name == "head".spec_bytes() {
        Option::Some(HumanoidBone::Head)
    } else if name == "leftEye".spec_bytes() {
        Option::Some(HumanoidBone::LeftEye)
    } else if name == "rightEye".spec_bytes() {
        Option::Some(HumanoidBone::RightEye)
    } else if name == "jaw".spec_bytes() {
        Option::Some(HumanoidBone::Jaw)
    } else if name == "leftUpperLeg".spec_bytes() {
        Option::Some(HumanoidBone::LeftUpperLeg)
    } else if name == "leftLowerLeg".spec_bytes() {
        Option::Some(HumanoidBone::LeftLowerLeg)
    } else if name == "leftFoot".spec_bytes() {
        Option::Some(HumanoidBone::LeftFoot)
    } else if name == "leftToes".spec_bytes() {
        Option::Some(HumanoidBone::LeftToes)
    } else if name == "rightUpperLeg".spec_bytes() {
        Option::Some(HumanoidBone::RightUpperLeg)
    } else if name == "rightLowerLeg".spec_bytes() {
        Option::Some(HumanoidBone::RightLowerLeg)
    } else if name == "rightFoot".spec_bytes() {
        Option::Some(HumanoidBone::RightFoot)
    } else if name == "rightToes".spec_bytes() {
        Option::Some(HumanoidBone::RightToes)
    } else if name == "leftShoulder".spec_bytes() {
        Option::Some(HumanoidBone::LeftShoulder)
    } else if name == "leftUpperArm".spec_bytes() {
        Option::Some(HumanoidBone::LeftUpperArm)
    } else if name == "leftLowerArm".spec_bytes() {
        Option::Some(HumanoidBone::LeftLowerArm)
    } else if name == "leftHand".spec_bytes() {
        Option::Some(HumanoidBone::LeftHand)
    } else if name == "rightShoulder".spec_bytes() {
        Option::Some(HumanoidBone::RightShoulder)
    } else if name == "rightUpperArm".spec_bytes() {
        Option::Some(HumanoidBone::RightUpperArm)
    } else if name == "rightLowerArm".spec_bytes() {
        Option::Some(HumanoidBone::RightLowerArm)
    } else if name == "rightHand".spec_bytes() {
        Option::Some(HumanoidBone::RightHand)
    } else if name == "leftThumbMetacarpal".spec_bytes() {
        Option::Some(HumanoidBone::LeftThumbMetacarpal)
    } else if name == "leftThumbProximal".spec_bytes() {
        Option::Some(HumanoidBone::LeftThumbProximal)
    } else if name == "leftThumbDistal".spec_bytes() {
        Option::Some(HumanoidBone::LeftThumbDistal)
    } else if name == "leftIndexProximal".spec_bytes() {
        Option::Some(HumanoidBone::LeftIndexProximal)
    } else if name == "leftIndexIntermediate".spec_bytes() {
        Option::Some(HumanoidBone::LeftIndexIntermediate)
    } else if name == "leftIndexDistal".spec_bytes() {
        Option::Some(HumanoidBone::LeftIndexDistal)
    } else if name == "leftMiddleProximal".spec_bytes() {
        Option::Some(HumanoidBone::LeftMiddleProximal)
    } else if name == "leftMiddleIntermediate".spec_bytes() {
        Option::Some(HumanoidBone::LeftMiddleIntermediate)
    } else if name == "leftMiddleDistal".spec_bytes() {
        Option::Some(HumanoidBone::LeftMiddleDistal)
    } else if name == "leftRingProximal".spec_bytes() {
        Option::Some(HumanoidBone::LeftRingProximal)
    } else if name == "leftRingIntermediate".spec_bytes() {
        Option::Some(HumanoidBone::LeftRingIntermediate)
    } else if name == "leftRingDistal".spec_bytes() {
        Option::Some(HumanoidBone::LeftRingDistal)
    } else if name == "leftLittleProximal".spec_bytes() {
        Option::Some(HumanoidBone::LeftLittleProximal)
    } else if name == "leftLittleIntermediate".spec_bytes() {
        Option::Some(HumanoidBone::LeftLittleIntermediate)
    } else if name == "leftLittleDistal".spec_bytes() {
        Option::Some(HumanoidBone::LeftLittleDistal)
    } else if name == "rightThumbMetacarpal".spec_bytes() {
        Option::Some(HumanoidBone::RightThumbMetacarpal)
    } else if name == "rightThumbProximal".spec_bytes() {
        Option::Some(HumanoidBone::RightThumbProximal)
    } else if name == "rightThumbDistal".spec_bytes() {
        Option::Some(HumanoidBone::RightThumbDistal)
    } else if name == "rightIndexProximal".spec_bytes() {
        Option::Some(HumanoidBone::RightIndexProximal)
    } else if name == "rightIndexIntermediate".spec_bytes() {
        Option::Some(HumanoidBone::RightIndexIntermediate)
    } else if name == "rightIndexDistal".spec_bytes() {
        Option::Some(HumanoidBone::RightIndexDistal)
    } else if name == "rightMiddleProximal".spec_bytes() {
        Option::Some(HumanoidBone::RightMiddleProximal)
    } else if name == "rightMiddleIntermediate".spec_bytes() {
        Option::Some(HumanoidBone::RightMiddleIntermediate)
    } else if name == "rightMiddleDistal".spec_bytes() {
        Option::Some(HumanoidBone::RightMiddleDistal)
    } else if name == "rightRingProximal".spec_bytes() {
        Option::Some(HumanoidBone::RightRingProximal)
    } else if name == "rightRingIntermediate".spec_bytes() {
        Option::Some(HumanoidBone::RightRingIntermediate)
    } else if name == "rightRingDistal".spec_bytes() {
        Option::Some(HumanoidBone::RightRingDistal)
    } else if name == "rightLittleProximal".spec_bytes() {
        Option::Some(HumanoidBone::RightLittleProximal)
    } else if name == "rightLittleIntermediate".spec_bytes() {
        Option::Some(HumanoidBone::RightLittleIntermediate)
    } else if name == "rightLittleDistal".spec_bytes() {
        Option::Some(HumanoidBone::RightLittleDistal)
    } else {
        Option::None
    }
}

/// Parses the camel-case bone name used by the extension's bone table.
pub fn parse_humanoid_bone(name: &[u8]) -> (r: Option<HumanoidBone>)
    ensures
        r == humanoid_bone_of(name@),
{
    if bytes_eq_str(name, "hips") {
        Option::Some(HumanoidBone::Hips)
    } else if bytes_eq_str(name, "spine") {
        Option::Some(HumanoidBone::Spine)
    } else if bytes_eq_str(name, "chest") {
        Option::Some(HumanoidBone::Chest)
    } else if bytes_eq_str(name, "upperChest") {
        Option::Some(HumanoidBone::UpperChest)
    } else if bytes_eq_str(name, "neck") {
        Option::Some(HumanoidBone::Neck)
    } else if bytes_eq_str(name, "head") {
        Option::Some(HumanoidBone::Head)
    } else if bytes_eq_str(name, "leftEye") {
        Option::Some(HumanoidBone::LeftEye)
    } else if bytes_eq_str(name, "rightEye") {
        Option::Some(HumanoidBone::RightEye)
    } else if bytes_eq_str(name, "jaw") {
        Option::Some(HumanoidBone::Jaw)
    } else if bytes_eq_str(name, "leftUpperLeg") {
        Option::Some(HumanoidBone::LeftUpperLeg)
    } else if bytes_eq_str(name, "leftLowerLeg") {
        Option::Some(HumanoidBone::LeftLowerLeg)
    } else if bytes_eq_str(name, "leftFoot") {
        Option::Some(HumanoidBone::LeftFoot)
    } else if bytes_eq_str(name, "leftToes") {
        Option::Some(HumanoidBone::LeftToes)
    } else if bytes_eq_str(name, "rightUpperLeg") {
        Option::Some(HumanoidBone::RightUpperLeg)
    } else if bytes_eq_str(name, "rightLowerLeg") {
        Option::Some(HumanoidBone::RightLowerLeg)
    } else if bytes_eq_str(name, "rightFoot") {
        Option::Some(HumanoidBone::RightFoot)
    } else if bytes_eq_str(name, "rightToes") {
        Option::Some(HumanoidBone::RightToes)
    } else if bytes_eq_str(name, "leftShoulder") {
        Option::Some(HumanoidBone::LeftShoulder)
    } else if bytes_eq_str(name, "leftUpperArm") {
        Option::Some(HumanoidBone::LeftUpperArm)
    } else if bytes_eq_str(name, "leftLowerArm") {
        Option::Some(HumanoidBone::LeftLowerArm)
    } else if bytes_eq_str(name, "leftHand") {
        Option::Some(HumanoidBone::LeftHand)
    } else if bytes_eq_str(name, "rightShoulder") {
        Option::Some(HumanoidBone::RightShoulder)
    } else if bytes_eq_str(name, "rightUpperArm") {
        Option::Some(HumanoidBone::RightUpperArm)
    } else if bytes_eq_str(name, "rightLowerArm") {
        Option::Some(HumanoidBone::RightLowerArm)
    } else if bytes_eq_str(name, "rightHand") {
        Option::Some(HumanoidBone::RightHand)
    } else if bytes_eq_str(name, "leftThumbMetacarpal") {
        Option::Some(HumanoidBone::LeftThumbMetacarpal)
    } else if bytes_eq_str(name, "leftThumbProximal") {
        Option::Some(HumanoidBone::LeftThumbProximal)
    } else if bytes_eq_str(name, "leftThumbDistal") {
        Option::Some(HumanoidBone::LeftThumbDistal)
    } else if bytes_eq_str(name, "leftIndexProximal") {
        Option::Some(HumanoidBone::LeftIndexProximal)
    } else if bytes_eq_str(name, "leftIndexIntermediate") {
        Option::Some(HumanoidBone::LeftIndexIntermediate)
    } else if bytes_eq_str(name, "leftIndexDistal") {
        Option::Some(HumanoidBone::LeftIndexDistal)
    } else if bytes_eq_str(name, "leftMiddleProximal") {
        Option::Some(HumanoidBone::LeftMiddleProximal)
    } else if bytes_eq_str(name, "leftMiddleIntermediate") {
        Option::Some(HumanoidBone::LeftMiddleIntermediate)
    } else if bytes_eq_str(name, "leftMiddleDistal") {
        Option::Some(HumanoidBone::LeftMiddleDistal)
    } else if bytes_eq_str(name, "leftRingProximal") {
        Option::Some(HumanoidBone::LeftRingProximal)
    } else if bytes_eq_str(name, "leftRingIntermediate") {
        Option::Some(HumanoidBone::LeftRingIntermediate)
    } else if bytes_eq_str(name, "leftRingDistal") {
        Option::Some(HumanoidBone::LeftRingDistal)
    } else if bytes_eq_str(name, "leftLittleProximal") {
        Option::Some(HumanoidBone::LeftLittleProximal)
    } else if bytes_eq_str(name, "leftLittleIntermediate") {
        Option::Some(HumanoidBone::LeftLittleIntermediate)
    } else if bytes_eq_str(name, "leftLittleDistal") {
        Option::Some(HumanoidBone::LeftLittleDistal)
    } else if bytes_eq_str(name, "rightThumbMetacarpal") {
        Option::Some(HumanoidBone::RightThumbMetacarpal)
    } else if bytes_eq_str(name, "rightThumbProximal") {
        Option::Some(HumanoidBone::RightThumbProximal)
    } else if bytes_eq_str(name, "rightThumbDistal") {
        Option::Some(HumanoidBone::RightThumbDistal)
    } else if bytes_eq_str(name, "rightIndexProximal") {
        Option::Some(HumanoidBone::RightIndexProximal)
    } else if bytes_eq_str(name, "rightIndexIntermediate") {
        Option::Some(HumanoidBone::RightIndexIntermediate)
    } else if bytes_eq_str(name, "rightIndexDistal") {
        Option::Some(HumanoidBone::RightIndexDistal)
    } else if bytes_eq_str(name, "rightMiddleProximal") {
        Option::Some(HumanoidBone::RightMiddleProximal)
    } else if bytes_eq_str(name, "rightMiddleIntermediate") {
        Option::Some(HumanoidBone::RightMiddleIntermediate)
    } else if bytes_eq_str(name, "rightMiddleDistal") {
        Option::Some(HumanoidBone::RightMiddleDistal)
    } else if bytes_eq_str(name, "rightRingProximal") {
        Option::Some(HumanoidBone::RightRingProximal)
    } else if bytes_eq_str(name, "rightRingIntermediate") {
        Option::Some(HumanoidBone::RightRingIntermediate)
    } else if bytes_eq_str(name, "rightRingDistal") {
        Option::Some(HumanoidBone::RightRingDistal)
    } else if bytes_eq_str(name, "rightLittleProximal") {
        Option::Some(HumanoidBone::RightLittleProximal)
    } else if bytes_eq_str(name, "rightLittleIntermediate") {
        Option::Some(HumanoidBone::RightLittleIntermediate)
    } else if bytes_eq_str(name, "rightLittleDistal") {
        Option::Some(HumanoidBone::RightLittleDistal)
    } else {
        Option::None
    }
}

/// One bone-table entry: the node it is mapped to.
#[derive(Clone, Copy, Debug, PartialEq, Eq, Structural)]
pub struct HumanBoneJson {
    /// Index into the document's node list.
    pub node: u32,
}

/// The extension's bone table, in document order.
#[derive(Clone, Debug, PartialEq, Eq)]
pub struct HumanoidJson {
    /// Bone to node-index entries.
    pub human_bones: Vec<(HumanoidBone, HumanBoneJson)>,
}

/// One gaze calibration pair.
#[derive(Clone, Copy, Debug, PartialEq, Eq, Structural)]
pub struct RangeMapJson {
    /// Largest input deflection angle considered (Q47.16 radians here).
    pub input_max_value: i64,
    /// Output magnitude the largest input maps to (Q47.16).
    pub output_scale: i64,
}

/// Whether gaze drives bone rotation or expression weights.
#[derive(Clone, Copy, Debug, PartialEq, Eq, Structural)]
pub enum LookAtModeJson {
    /// Gaze rotates the eye bones.
    Bone,
    /// Gaze drives expressions (not evaluated by this loader).
    Expression,
}

/// The extension's gaze description.
#[derive(Clone, Debug, PartialEq, Eq, Structural)]
pub struct LookAtJson {
    /// The gaze mode.
    pub mode: LookAtModeJson,
    /// Gaze-target pivot offset from the head bone.
    pub offset_from_head_bone: FxVec3,
    /// Calibration toward the nose.
    pub range_map_horizontal_inner: RangeMapJson,
    /// Calibration away from the nose.
    pub range_map_horizontal_outer: RangeMapJson,
    /// Calibration looking down.
    pub range_map_vertical_down: RangeMapJson,
    /// Calibration looking up.
    pub range_map_vertical_up: RangeMapJson,
}

/// The root extension block of the document.
#[derive(Clone, Debug, PartialEq, Eq)]
pub struct VrmExtensionJson {
    /// Declared extension version.
    pub spec_version: Vec<u8>,
    /// The bone table.
    pub humanoid: HumanoidJson,
    /// The gaze description.
    pub look_at: LookAtJson,
}

/// The recognized root extensions.
#[derive(Clone, Debug, PartialEq, Eq)]
pub struct RootExtensions {
    /// The humanoid/look-at block.
    pub vrm: VrmExtensionJson,
}

/// The extension view of the whole document.
#[derive(Clone, Debug, PartialEq, Eq)]
pub struct ExtendedRoot {
    /// Root extensions.
    pub extensions: RootExtensions,
    /// Per-material extension blocks, index-aligned with the materials.
    pub materials: Vec<ExtendedMaterial>,
}

/// An RGBA color factor in Q47.16.
#[derive(Clone, Copy, Debug, PartialEq, Eq, Structural)]
pub struct ColorFactor {
    /// Red.
    pub r: i64,
    /// Green.
    pub g: i64,
    /// Blue.
    pub b: i64,
    /// Alpha.
    pub a: i64,
}

/// One declared buffer.
#[derive(Clone, Debug, PartialEq, Eq)]
pub struct BufferDecl {
    /// Declared byte length.
    pub byte_length: usize,
    /// Source URI; absent means the container's binary chunk.
    pub uri: Option<Vec<u8>>,
}

/// A view into a buffer's bytes.
#[derive(Clone, Copy, Debug, PartialEq, Eq, Structural)]
pub struct BufferViewDecl {
    /// Index of the buffer.
    pub buffer: usize,
    /// Offset of the view in the buffer.
    pub byte_offset: usize,
    /// Length of the view.
    pub byte_length: usize,
    /// Distance between elements, when interleaved.
    pub byte_stride: Option<usize>,
}

/// The element arity of an accessor.
#[derive(Clone, Copy, Debug, PartialEq, Eq, Structural)]
pub enum ElementKind {
    /// One component.
    Scalar,
    /// Two components.
    Vec2,
    /// Three components.
    Vec3,
    /// Four components.
    Vec4,
    /// Four components (2x2 matrix).
    Mat2,
    /// Nine components (3x3 matrix).
    Mat3,
    /// Sixteen components (4x4 matrix).
    Mat4,
}

impl ElementKind {
    /// Number of components per element.
    pub fn component_count(&self) -> (r: usize)
        ensures
            r == self.component_count_spec(),
    {
        match self {
            ElementKind::Scalar => 1,
            ElementKind::Vec2 => 2,
            ElementKind::Vec3 => 3,
            ElementKind::Vec4 => 4,
            ElementKind::Mat2 => 4,
            ElementKind::Mat3 => 9,
            ElementKind::Mat4 => 16,
        }
    }

    /// Number of components per element.
    pub open spec fn component_count_spec(self) -> int {
        match self {
            ElementKind::Scalar => 1,
            ElementKind::Vec2 => 2,
            ElementKind::Vec3 => 3,
            ElementKind::Vec4 => 4,
            ElementKind::Mat2 => 4,
            ElementKind::Mat3 => 9,
            ElementKind::Mat4 => 16,
        }
    }
}

/// One declared accessor: a typed view of vertex or index data.
#[derive(Clone, Copy, Debug, PartialEq, Eq, Structural)]
pub struct AccessorDecl {
    /// The buffer view holding its bytes; absent means all zeros.
    pub buffer_view: Option<usize>,
    /// Extra offset within the view.
    pub byte_offset: usize,
    /// Declared component type code.
    pub component_type: u32,
    /// Number of elements.
    pub count: usize,
    /// Element arity.
    pub kind: ElementKind,
}

/// One morph target's delta accessors.
#[derive(Clone, Copy, Debug, PartialEq, Eq, Structural)]
pub struct MorphTargetDecl {
    /// Position deltas.
    pub position: Option<usize>,
    /// Normal deltas.
    pub normal: Option<usize>,
    /// Tangent deltas.
    pub tangent: Option<usize>,
}

/// One declared mesh primitive.
#[derive(Clone, Debug, PartialEq, Eq)]
pub struct PrimitiveDecl {
    /// POSITION accessor.
    pub position: Option<usize>,
    /// NORMAL accessor.
    pub normal: Option<usize>,
    /// TANGENT accessor.
    pub tangent: Option<usize>,
    /// TEXCOORD_0 accessor.
    pub texcoord0: Option<usize>,
    /// JOINTS_0 accessor.
    pub joints0: Option<usize>,
    /// WEIGHTS_0 accessor.
    pub weights0: Option<usize>,
    /// Index accessor.
    pub indices: Option<usize>,
    /// Material index.
    pub material: Option<usize>,
    /// Topology code (0 points ... 5 triangle strip; 4 when unspecified).
    pub mode: u32,
    /// Morph targets.
    pub targets: Vec<MorphTargetDecl>,
}

/// One declared mesh.
#[derive(Clone, Debug, PartialEq, Eq)]
pub struct MeshDecl {
    /// Optional name.
    pub name: Option<Vec<u8>>,
    /// Its primitives.
    pub primitives: Vec<PrimitiveDecl>,
    /// Base morph weights.
    pub weights: Vec<i64>,
    /// Morph target names from the mesh extras.
    pub target_names: Vec<Vec<u8>>,
}

/// One declared sampler.
#[derive(Clone, Copy, Debug, PartialEq, Eq, Structural)]
pub struct SamplerDecl {
    /// Magnification filter code.
    pub mag_filter: Option<i64>,
    /// Minification filter code.
    pub min_filter: Option<i64>,
    /// Wrap mode along s (10497 repeat when unspecified).
    pub wrap_s: i64,
    /// Wrap mode along t.
    pub wrap_t: i64,
}

/// One declared texture.
#[derive(Clone, Copy, Debug, PartialEq, Eq, Structural)]
pub struct TextureDecl {
    /// Image index.
    pub source: Option<usize>,
    /// Sampler index.
    pub sampler: Option<usize>,
}

/// One declared image.
#[derive(Clone, Debug, PartialEq, Eq)]
pub struct ImageDecl {
    /// Source URI (external path or data URI).
    pub uri: Option<Vec<u8>>,
    /// Declared mime type.
    pub mime_type: Option<Vec<u8>>,
    /// Buffer view holding encoded bytes.
    pub buffer_view: Option<usize>,
}

/// One declared material (standard physically-based fields).
#[derive(Clone, Debug, PartialEq, Eq)]
pub struct MaterialDecl {
    /// Optional name.
    pub name: Option<Vec<u8>>,
    /// Base color factor.
    pub base_color_factor: ColorFactor,
    /// Base color texture.
    pub base_color_texture: Option<TextureInfo>,
    /// Metallic factor (Q47.16).
    pub metallic_factor: i64,
    /// Roughness factor (Q47.16).
    pub roughness_factor: i64,
    /// Metallic/roughness texture.
    pub metallic_roughness_texture: Option<TextureInfo>,
    /// Normal map texture.
    pub normal_texture: Option<TextureInfo>,
    /// Occlusion texture.
    pub occlusion_texture: Option<TextureInfo>,
    /// Emissive factor.
    pub emissive_factor: FxVec3,
    /// Emissive texture.
    pub emissive_texture: Option<TextureInfo>,
    /// Whether both faces are drawn.
    pub double_sided: bool,
    /// Raw alpha-mode token (empty when unspecified).
    pub alpha_mode: Vec<u8>,
    /// Mask cutoff, when declared.
    pub alpha_cutoff: Option<i64>,
    /// Whether the unlit extension is present.
    pub unlit: bool,
}

/// One declared camera.
#[derive(Clone, Copy, Debug, PartialEq, Eq, Structural)]
pub enum CameraDecl {
    /// A perspective projection.
    Perspective {
        /// Vertical field of view (Q47.16 radians).
        yfov: i64,
        /// Near plane.
        znear: i64,
        /// Far plane, when declared.
        zfar: Option<i64>,
        /// Aspect ratio, when declared.
        aspect_ratio: Option<i64>,
    },
    /// An orthographic projection.
    Orthographic {
        /// Half width.
        xmag: i64,
        /// Half height.
        ymag: i64,
        /// Near plane.
        znear: i64,
        /// Far plane.
        zfar: i64,
    },
}

/// A node's local transform as declared.
#[derive(Clone, Debug, PartialEq, Eq)]
pub enum TransformDecl {
    /// A 4x4 column-major matrix (16 entries, Q47.16).
    Matrix {
        /// The matrix entries.
        entries: Vec<i64>,
    },
    /// Decomposed translation, rotation, scale.
    Decomposed {
        /// Translation.
        translation: FxVec3,
        /// Rotation (x, y, z, w).
        rotation: FxQuat,
        /// Scale.
        scale: FxVec3,
    },
}

/// One declared node.
#[derive(Clone, Debug, PartialEq, Eq)]
pub struct NodeDecl {
    /// Optional name.
    pub name: Option<Vec<u8>>,
    /// Child node indices.
    pub children: Vec<usize>,
    /// Local transform.
    pub transform: TransformDecl,
    /// Mesh index.
    pub mesh: Option<usize>,
    /// Skin index.
    pub skin: Option<usize>,
    /// Camera index.
    pub camera: Option<usize>,
}

/// One declared skin.
#[derive(Clone, Debug, PartialEq, Eq)]
pub struct SkinDecl {
    /// Joint node indices.
    pub joints: Vec<usize>,
    /// Accessor of the inverse bind matrices.
    pub inverse_bind_matrices: Option<usize>,
}

/// One declared scene.
#[derive(Clone, Debug, PartialEq, Eq)]
pub struct SceneDecl {
    /// Optional name.
    pub name: Option<Vec<u8>>,
    /// Root node indices.
    pub nodes: Vec<usize>,
}

/// The whole typed document.
#[derive(Clone, Debug, PartialEq, Eq)]
pub struct GltfDocument {
    /// Declared buffers.
    pub buffers: Vec<BufferDecl>,
    /// Declared buffer views.
    pub buffer_views: Vec<BufferViewDecl>,
    /// Declared accessors.
    pub accessors: Vec<AccessorDecl>,
    /// Declared meshes.
    pub meshes: Vec<MeshDecl>,
    /// Declared materials.
    pub materials: Vec<MaterialDecl>,
    /// Declared samplers.
    pub samplers: Vec<SamplerDecl>,
    /// Declared textures.
    pub textures: Vec<TextureDecl>,
    /// Declared images.
    pub images: Vec<ImageDecl>,
    /// Declared nodes.
    pub nodes: Vec<NodeDecl>,
    /// Declared skins.
    pub skins: Vec<SkinDecl>,
    /// Declared scenes.
    pub scenes: Vec<SceneDecl>,
    /// Declared cameras.
    pub cameras: Vec<CameraDecl>,
    /// Index of the default scene.
    pub default_scene: Option<usize>,
}

/// Looks a member up by name.
fn get_field<'a>(v: &'a JsonValue, key: &str) -> (r: Option<&'a JsonValue>)
    ensures
        match r {
            Option::Some(c) => json_member(*v, key.spec_bytes()) == Option::Some(*c),
            Option::None => json_member(*v, key.spec_bytes()) is None,
        },
{
    v.get(key.as_bytes())
}

/// The index a member denotes.
pub open spec fn index_member(v: JsonValue, key: Seq<u8>) -> Option<usize> {
    match json_member(v, key) {
        Option::Some(m) => index_of_value(m),
        Option::None => Option::None,
    }
}

/// The scalar a member denotes, with a fallback.
pub open spec fn fx_member_or(v: JsonValue, key: Seq<u8>, default: int) -> int {
    match json_member(v, key) {
        Option::Some(m) => match fx_of_value(m) {
            Option::Some(x) => x as int,
            Option::None => default,
        },
        Option::None => default,
    }
}

/// The bytes of a string member.
pub open spec fn str_member_bytes(v: JsonValue, key: Seq<u8>) -> Seq<u8>
    recommends
        json_member(v, key) is Some,
        json_member(v, key)->Some_0 is Str,
{
    (json_member(v, key)->Some_0)->Str_0@
}

/// An index-valued member.
fn get_index_field(v: &JsonValue, key: &str) -> (r: Option<usize>)
    ensures
        r == index_member(*v, key.spec_bytes()),
{
    match get_field(v, key) {
        Option::Some(f) => f.as_index(),
        Option::None => Option::None,
    }
}

/// A scalar member, with a default.
fn get_fx_field(v: &JsonValue, key: &str, default: i64) -> (r: i64)
    ensures
        r == fx_member_or(*v, key.spec_bytes(), default as int),
{
    match get_field(v, key) {
        Option::Some(f) => match f.as_fx() {
            Option::Some(x) => x,
            Option::None => default,
        },
        Option::None => default,
    }
}

/// The optional scalar a member denotes.
pub open spec fn fx_member_opt(v: JsonValue, key: Seq<u8>) -> Option<i64> {
    match json_member(v, key) {
        Option::Some(m) => fx_of_value(m),
        Option::None => Option::None,
    }
}

/// An optional scalar member.
fn get_fx_opt(v: &JsonValue, key: &str) -> (r: Option<i64>)
    ensures
        r == fx_member_opt(*v, key.spec_bytes()),
{
    match get_field(v, key) {
        Option::Some(f) => f.as_fx(),
        Option::None => Option::None,
    }
}

/// The boolean a member denotes, with a default.
pub open spec fn bool_member_or(v: JsonValue, key: Seq<u8>, default: bool) -> bool {
    match json_member(v, key) {
        Option::Some(m) => match m {
            JsonValue::Bool(b) => b,
            _ => default,
        },
        Option::None => default,
    }
}

/// A boolean member, with a default.
fn get_bool_field(v: &JsonValue, key: &str, default: bool) -> (r: bool)
    ensures
        r == bool_member_or(*v, key.spec_bytes(), default),
{
    match get_field(v, key) {
        Option::Some(f) => match f.as_bool() {
            Option::Some(b) => b,
            Option::None => default,
        },
        Option::None => default,
    }
}

/// A string member, copied out.
fn get_bytes_field(v: &JsonValue, key: &str) -> (r: Option<Vec<u8>>)
    ensures
        (r is Some) <==> (match json_member(*v, key.spec_bytes()) {
            Option::Some(m) => m is Str,
            Option::None => false,
        }),
        match r {
            Option::Some(b) => b@ == str_member_bytes(*v, key.spec_bytes()),
            Option::None => true,
        },
{
    match get_field(v, key) {
        Option::Some(f) => match f.as_str_bytes() {
            Option::Some(b) => {
                let copied = copy_range(b, 0, b.len());
                Option::Some(copied)
            },
            Option::None => Option::None,
        },
        Option::None => Option::None,
    }
}

/// The scalar at position i of an array value, with a default.
pub open spec fn array_fx_spec(v: JsonValue, i: int, default: int) -> int {
    match v {
        JsonValue::Arr(items) => if 0 <= i < items@.len() {
            match fx_of_value(items@[i]) {
                Option::Some(x) => x as int,
                Option::None => default,
            }
        } else {
            default
        },
        _ => default,
    }
}

/// The 3-vector a member denotes, with per-component defaults.
pub open spec fn v3_member_or(v: JsonValue, key: Seq<u8>, default: FxVec3) -> FxVec3 {
    match json_member(v, key) {
        Option::Some(f) => FxVec3 {
            x: array_fx_spec(f, 0, default.x as int) as i64,
            y: array_fx_spec(f, 1, default.y as int) as i64,
            z: array_fx_spec(f, 2, default.z as int) as i64,
        },
        Option::None => default,
    }
}

/// The scalar at position i of an array value, with a default.
fn array_fx(v: &JsonValue, i: usize, default: i64) -> (r: i64)
    ensures
        r == array_fx_spec(*v, i as int, default as int),
{
    match v.as_array() {
        Option::Some(items) => {
            if i < items.len() {
                match items[i].as_fx() {
                    Option::Some(x) => x,
                    Option::None => default,
                }
            } else {
                default
            }
        },
        Option::None => default,
    }
}

/// A 3-vector member, with a default.
fn get_v3_field(v: &JsonValue, key: &str, default: FxVec3) -> (r: FxVec3)
    ensures
        r == v3_member_or(*v, key.spec_bytes(), default),
{
    match get_field(v, key) {
        Option::Some(f) => FxVec3 {
            x: array_fx(f, 0, default.x),
            y: array_fx(f, 1, default.y),
            z: array_fx(f, 2, default.z),
        },
        Option::None => default,
    }
}

/// The texture reference a value denotes.
pub open spec fn texinfo_of_value(f: JsonValue) -> Option<TextureInfo> {
    match index_member(f, "index".spec_bytes()) {
        Option::Some(ix) => {
            let tc = match index_member(f, "texCoord".spec_bytes()) {
                Option::Some(t) => t as int,
                Option::None => 0,
            };
            if ix <= u32::MAX && tc <= u32::MAX {
                Option::Some(TextureInfo { index: ix as u32, tex_coord: tc as u32 })
            } else {
                Option::None
            }
        },
        Option::None => Option::None,
    }
}

/// The texture reference a member denotes.
pub open spec fn texinfo_member(v: JsonValue, key: Seq<u8>) -> Option<TextureInfo> {
    match json_member(v, key) {
        Option::Some(f) => texinfo_of_value(f),
        Option::None => Option::None,
    }
}

/// A texture-reference member.
fn get_texture_info(v: &JsonValue, key: &str) -> (r: Option<TextureInfo>)
    ensures
        r == texinfo_member(*v, key.spec_bytes()),
{
    match get_field(v, key) {
        Option::Some(f) => match get_index_field(f, "index") {
            Option::Some(ix) => {
                let tc: usize = match get_index_field(f, "texCoord") {
                    Option::Some(t) => t,
                    Option::None => 0,
                };
                if ix <= u32::MAX as usize && tc <= u32::MAX as usize {
                    Option::Some(TextureInfo { index: ix as u32, tex_coord: tc as u32 })
                } else {
                    Option::None
                }
            },
            Option::None => Option::None,
        },
        Option::None => Option::None,
    }
}

/// What one buffer declaration holds, relative to its JSON member.
pub open spec fn buffer_decl_matches(item: JsonValue, d: BufferDecl) -> bool {
    &&& d.byte_length == (match index_member(item, "byteLength".spec_bytes()) {
        Option::Some(n) => n,
        Option::None => 0,
    })
    &&& (match d.uri {
        Option::Some(u) => (match json_member(item, "uri".spec_bytes()) {
            Option::Some(m) => m is Str && u@ == m->Str_0@,
            Option::None => false,
        }),
        Option::None => !(match json_member(item, "uri".spec_bytes()) {
            Option::Some(m) => m is Str,
            Option::None => false,
        }),
    })
}

/// Extracts a buffer declaration.
fn extract_buffer(v: &JsonValue) -> (r: BufferDecl)
    ensures
        buffer_decl_matches(*v, r),
{
    let byte_length: usize = match get_index_field(v, "byteLength") {
        Option::Some(n) => n,
        Option::None => 0,
    };
    BufferDecl { byte_length, uri: get_bytes_field(v, "uri") }
}

/// The buffer view one JSON member denotes.
pub open spec fn view_decl_of(item: JsonValue) -> BufferViewDecl {
    BufferViewDecl {
        buffer: match index_member(item, "buffer".spec_bytes()) {
            Option::Some(n) => n,
            Option::None => 0,
        },
        byte_offset: match index_member(item, "byteOffset".spec_bytes()) {
            Option::Some(n) => n,
            Option::None => 0,
        },
        byte_length: match index_member(item, "byteLength".spec_bytes()) {
            Option::Some(n) => n,
            Option::None => 0,
        },
        byte_stride: index_member(item, "byteStride".spec_bytes()),
    }
}

/// Extracts a buffer-view declaration.
fn extract_buffer_view(v: &JsonValue) -> (r: BufferViewDecl)
    ensures
        r == view_decl_of(*v),
{
    BufferViewDecl {
        buffer: match get_index_field(v, "buffer") {
            Option::Some(n) => n,
            Option::None => 0,
        },
        byte_offset: match get_index_field(v, "byteOffset") {
            Option::Some(n) => n,
            Option::None => 0,
        },
        byte_length: match get_index_field(v, "byteLength") {
            Option::Some(n) => n,
            Option::None => 0,
        },
        byte_stride: get_index_field(v, "byteStride"),
    }
}

/// The element arity one type token denotes (scalar for anything else).
pub open spec fn element_kind_of(item: JsonValue) -> ElementKind {
    match json_member(item, "type".spec_bytes()) {
        Option::Some(t) => if t is Str {
            let b = t->Str_0@;
            if b == "SCALAR".spec_bytes() {
                ElementKind::Scalar
            } else if b == "VEC2".spec_bytes() {
                ElementKind::Vec2
            } else if b == "VEC3".spec_bytes() {
                ElementKind::Vec3
            } else if b == "VEC4".spec_bytes() {
                ElementKind::Vec4
            } else if b == "MAT2".spec_bytes() {
                ElementKind::Mat2
            } else if b == "MAT3".spec_bytes() {
                ElementKind::Mat3
            } else if b == "MAT4".spec_bytes() {
                ElementKind::Mat4
            } else {
                ElementKind::Scalar
            }
        } else {
            ElementKind::Scalar
        },
        Option::None => ElementKind::Scalar,
    }
}

/// The accessor one JSON member denotes.
pub open spec fn accessor_decl_of(item: JsonValue) -> AccessorDecl {
    AccessorDecl {
        buffer_view: index_member(item, "bufferView".spec_bytes()),
        byte_offset: match index_member(item, "byteOffset".spec_bytes()) {
            Option::Some(n) => n,
            Option::None => 0,
        },
        component_type: match index_member(item, "componentType".spec_bytes()) {
            Option::Some(n) => if n <= u32::MAX {
                n as u32
            } else {
                0
            },
            Option::None => 0,
        },
        count: match index_member(item, "count".spec_bytes()) {
            Option::Some(n) => n,
            Option::None => 0,
        },
        kind: element_kind_of(item),
    }
}

/// Extracts an accessor declaration.
fn extract_accessor(v: &JsonValue) -> (r: AccessorDecl)
    ensures
        r == accessor_decl_of(*v),
{
    let kind: ElementKind = match get_field(v, "type") {
        Option::Some(t) => match t.as_str_bytes() {
            Option::Some(b) => {
                if bytes_eq_str(b.as_slice(), "SCALAR") {
                    ElementKind::Scalar
                } else if bytes_eq_str(b.as_slice(), "VEC2") {
                    ElementKind::Vec2
                } else if bytes_eq_str(b.as_slice(), "VEC3") {
                    ElementKind::Vec3
                } else if bytes_eq_str(b.as_slice(), "VEC4") {
                    ElementKind::Vec4
                } else if bytes_eq_str(b.as_slice(), "MAT2") {
                    ElementKind::Mat2
                } else if bytes_eq_str(b.as_slice(), "MAT3") {
                    ElementKind::Mat3
                } else if bytes_eq_str(b.as_slice(), "MAT4") {
                    ElementKind::Mat4
                } else {
                    ElementKind::Scalar
                }
            },
            Option::None => ElementKind::Scalar,
        },
        Option::None => ElementKind::Scalar,
    };
    let component_type: u32 = match get_index_field(v, "componentType") {
        Option::Some(n) => {
            if n <= u32::MAX as usize {
                n as u32
            } else {
                0
            }
        },
        Option::None => 0,
    };
    AccessorDecl {
        buffer_view: get_index_field(v, "bufferView"),
        byte_offset: match get_index_field(v, "byteOffset") {
            Option::Some(n) => n,
            Option::None => 0,
        },
        component_type,
        count: match get_index_field(v, "count") {
            Option::Some(n) => n,
            Option::None => 0,
        },
        kind,
    }
}

/// Extracts one morph-target declaration.
fn extract_morph_target(v: &JsonValue) -> (r: MorphTargetDecl)
{
    MorphTargetDecl {
        position: get_index_field(v, "POSITION"),
        normal: get_index_field(v, "NORMAL"),
        tangent: get_index_field(v, "TANGENT"),
    }
}

/// Extracts one primitive declaration.
fn extract_primitive(v: &JsonValue) -> (r: PrimitiveDecl)
{
    let mut position: Option<usize> = Option::None;
    let mut normal: Option<usize> = Option::None;
    let mut tangent: Option<usize> = Option::None;
    let mut texcoord0: Option<usize> = Option::None;
    let mut joints0: Option<usize> = Option::None;
    let mut weights0: Option<usize> = Option::None;
    match get_field(v, "attributes") {
        Option::Some(attrs) => {
            position = get_index_field(attrs, "POSITION");
            normal = get_index_field(attrs, "NORMAL");
            tangent = get_index_field(attrs, "TANGENT");
            texcoord0 = get_index_field(attrs, "TEXCOORD_0");
            joints0 = get_index_field(attrs, "JOINTS_0");
            weights0 = get_index_field(attrs, "WEIGHTS_0");
        },
        Option::None => {},
    }
    let mut targets: Vec<MorphTargetDecl> = Vec::new();
    match get_field(v, "targets") {
        Option::Some(t) => match t.as_array() {
            Option::Some(items) => {
                let mut i: usize = 0;
                while i < items.len()
                    decreases items.len() - i,
                {
                    targets.push(extract_morph_target(&items[i]));
                    i = i + 1;
                }
            },
            Option::None => {},
        },
        Option::None => {},
    }
    let mode: u32 = match get_index_field(v, "mode") {
        Option::Some(n) => {
            if n <= u32::MAX as usize {
                n as u32
            } else {
                0
            }
        },
        Option::None => 4,
    };
    PrimitiveDecl {
        position,
        normal,
        tangent,
        texcoord0,
        joints0,
        weights0,
        indices: get_index_field(v, "indices"),
        material: get_index_field(v, "material"),
        mode,
        targets,
    }
}

/// Extracts one mesh declaration (primitives, base weights, target names).
fn extract_mesh(v: &JsonValue) -> (r: MeshDecl)
{
    let mut primitives: Vec<PrimitiveDecl> = Vec::new();
    match get_field(v, "primitives") {
        Option::Some(p) => match p.as_array() {
            Option::Some(items) => {
                let mut i: usize = 0;
                while i < items.len()
                    decreases items.len() - i,
                {
                    primitives.push(extract_primitive(&items[i]));
                    i = i + 1;
                }
            },
            Option::None => {},
        },
        Option::None => {},
    }
    let mut weights: Vec<i64> = Vec::new();
    match get_field(v, "weights") {
        Option::Some(w) => match w.as_array() {
            Option::Some(items) => {
                let mut i: usize = 0;
                while i < items.len()
                    decreases items.len() - i,
                {
                    weights.push(
                        match items[i].as_fx() {
                            Option::Some(x) => x,
                            Option::None => 0,
                        },
                    );
                    i = i + 1;
                }
            },
            Option::None => {},
        },
        Option::None => {},
    }
    let mut target_names: Vec<Vec<u8>> = Vec::new();
    match get_field(v, "extras") {
        Option::Some(extras) => match get_field(extras, "targetNames") {
            Option::Some(tn) => match tn.as_array() {
                Option::Some(items) => {
                    let mut i: usize = 0;
                    while i < items.len()
                        decreases items.len() - i,
                    {
                        match items[i].as_str_bytes() {
                            Option::Some(b) => {
                                target_names.push(copy_range(b, 0, b.len()));
                            },
                            Option::None => {
                                target_names.push(Vec::new());
                            },
                        }
                        i = i + 1;
                    }
                },
                Option::None => {},
            },
            Option::None => {},
        },
        Option::None => {},
    }
    MeshDecl { name: get_bytes_field(v, "name"), primitives, weights, target_names }
}

/// The sampler one JSON member denotes.
pub open spec fn sampler_decl_of_member(item: JsonValue) -> SamplerDecl {
    SamplerDecl {
        mag_filter: match index_member(item, "magFilter".spec_bytes()) {
            Option::Some(n) => if n <= i64::MAX {
                Option::Some(n as i64)
            } else {
                Option::None
            },
            Option::None => Option::None,
        },
        min_filter: match index_member(item, "minFilter".spec_bytes()) {
            Option::Some(n) => if n <= i64::MAX {
                Option::Some(n as i64)
            } else {
                Option::None
            },
            Option::None => Option::None,
        },
        wrap_s: match index_member(item, "wrapS".spec_bytes()) {
            Option::Some(n) => if n <= i64::MAX {
                n as i64
            } else {
                10497
            },
            Option::None => 10497,
        },
        wrap_t: match index_member(item, "wrapT".spec_bytes()) {
            Option::Some(n) => if n <= i64::MAX {
                n as i64
            } else {
                10497
            },
            Option::None => 10497,
        },
    }
}

/// Extracts one sampler declaration.
fn extract_sampler(v: &JsonValue) -> (r: SamplerDecl)
    ensures
        r == sampler_decl_of_member(*v),
{
    SamplerDecl {
        mag_filter: match get_index_field(v, "magFilter") {
            Option::Some(n) => {
                if (n as u64) <= (i64::MAX as u64) {
                    Option::Some(n as i64)
                } else {
                    Option::None
                }
            },
            Option::None => Option::None,
        },
        min_filter: match get_index_field(v, "minFilter") {
            Option::Some(n) => {
                if (n as u64) <= (i64::MAX as u64) {
                    Option::Some(n as i64)
                } else {
                    Option::None
                }
            },
            Option::None => Option::None,
        },
        wrap_s: match get_index_field(v, "wrapS") {
            Option::Some(n) => {
                if (n as u64) <= (i64::MAX as u64) {
                    n as i64
                } else {
                    10497
                }
            },
            Option::None => 10497,
        },
        wrap_t: match get_index_field(v, "wrapT") {
            Option::Some(n) => {
                if (n as u64) <= (i64::MAX as u64) {
                    n as i64
                } else {
                    10497
                }
            },
            Option::None => 10497,
        },
    }
}

/// What one material declaration holds, relative to its JSON member.
pub open spec fn material_decl_matches(item: JsonValue, d: MaterialDecl) -> bool {
    let pbr = json_member(item, "pbrMetallicRoughness".spec_bytes());
    &&& (match d.name {
        Option::Some(u) => (match json_member(item, "name".spec_bytes()) {
            Option::Some(m) => m is Str && u@ == m->Str_0@,
            Option::None => false,
        }),
        Option::None => !(match json_member(item, "name".spec_bytes()) {
            Option::Some(m) => m is Str,
            Option::None => false,
        }),
    })
    &&& (match pbr {
        Option::Some(p) => {
            &&& d.base_color_factor == (match json_member(p, "baseColorFactor".spec_bytes()) {
                Option::Some(f) => ColorFactor {
                    r: array_fx_spec(f, 0, FX_ONE as int) as i64,
                    g: array_fx_spec(f, 1, FX_ONE as int) as i64,
                    b: array_fx_spec(f, 2, FX_ONE as int) as i64,
                    a: array_fx_spec(f, 3, FX_ONE as int) as i64,
                },
                Option::None => ColorFactor {
                    r: FX_ONE as i64,
                    g: FX_ONE as i64,
                    b: FX_ONE as i64,
                    a: FX_ONE as i64,
                },
            })
            &&& d.base_color_texture == texinfo_member(p, "baseColorTexture".spec_bytes())
            &&& d.metallic_factor == fx_member_or(p, "metallicFactor".spec_bytes(), FX_ONE as int)
            &&& d.roughness_factor == fx_member_or(
                p,
                "roughnessFactor".spec_bytes(),
                FX_ONE as int,
            )
            &&& d.metallic_roughness_texture == texinfo_member(
                p,
                "metallicRoughnessTexture".spec_bytes(),
            )
        },
        Option::None => {
            &&& d.base_color_factor == (ColorFactor {
                r: FX_ONE as i64,
                g: FX_ONE as i64,
                b: FX_ONE as i64,
                a: FX_ONE as i64,
            })
            &&& d.base_color_texture is None
            &&& d.metallic_factor == FX_ONE
            &&& d.roughness_factor == FX_ONE
            &&& d.metallic_roughness_texture is None
        },
    })
    &&& d.normal_texture == texinfo_member(item, "normalTexture".spec_bytes())
    &&& d.occlusion_texture == texinfo_member(item, "occlusionTexture".spec_bytes())
    &&& d.emissive_factor == v3_member_or(
        item,
        "emissiveFactor".spec_bytes(),
        FxVec3 { x: 0, y: 0, z: 0 },
    )
    &&& d.emissive_texture == texinfo_member(item, "emissiveTexture".spec_bytes())
    &&& d.double_sided == bool_member_or(item, "doubleSided".spec_bytes(), false)
    &&& d.alpha_mode@ == (match json_member(item, "alphaMode".spec_bytes()) {
        Option::Some(m) => if m is Str {
            m->Str_0@
        } else {
            Seq::<u8>::empty()
        },
        Option::None => Seq::<u8>::empty(),
    })
    &&& d.alpha_cutoff == fx_member_opt(item, "alphaCutoff".spec_bytes())
    &&& d.unlit == (match json_member(item, "extensions".spec_bytes()) {
        Option::Some(e) => json_member(e, "KHR_materials_unlit".spec_bytes()) is Some,
        Option::None => false,
    })
}

/// Extracts one material declaration.
fn extract_material(v: &JsonValue) -> (r: MaterialDecl)
    ensures
        material_decl_matches(*v, r),
{
    let mut base_color_factor = ColorFactor { r: FX_ONE, g: FX_ONE, b: FX_ONE, a: FX_ONE };
    let mut base_color_texture: Option<TextureInfo> = Option::None;
    let mut metallic_factor: i64 = FX_ONE;
    let mut roughness_factor: i64 = FX_ONE;
    let mut metallic_roughness_texture: Option<TextureInfo> = Option::None;
    match get_field(v, "pbrMetallicRoughness") {
        Option::Some(pbr) => {
            match get_field(pbr, "baseColorFactor") {
                Option::Some(f) => {
                    base_color_factor = ColorFactor {
                        r: array_fx(f, 0, FX_ONE),
                        g: array_fx(f, 1, FX_ONE),
                        b: array_fx(f, 2, FX_ONE),
                        a: array_fx(f, 3, FX_ONE),
                    };
                },
                Option::None => {},
            }
            base_color_texture = get_texture_info(pbr, "baseColorTexture");
            metallic_factor = get_fx_field(pbr, "metallicFactor", FX_ONE);
            roughness_factor = get_fx_field(pbr, "roughnessFactor", FX_ONE);
            metallic_roughness_texture = get_texture_info(pbr, "metallicRoughnessTexture");
        },
        Option::None => {},
    }
    let unlit: bool = match get_field(v, "extensions") {
        Option::Some(ext) => match get_field(ext, "KHR_materials_unlit") {
            Option::Some(_) => true,
            Option::None => false,
        },
        Option::None => false,
    };
    let alpha_mode: Vec<u8> = match get_bytes_field(v, "alphaMode") {
        Option::Some(b) => b,
        Option::None => Vec::new(),
    };
    MaterialDecl {
        name: get_bytes_field(v, "name"),
        base_color_factor,
        base_color_texture,
        metallic_factor,
        roughness_factor,
        metallic_roughness_texture,
        normal_texture: get_texture_info(v, "normalTexture"),
        occlusion_texture: get_texture_info(v, "occlusionTexture"),
        emissive_factor: get_v3_field(v, "emissiveFactor", FxVec3 { x: 0, y: 0, z: 0 }),
        emissive_texture: get_texture_info(v, "emissiveTexture"),
        double_sided: get_bool_field(v, "doubleSided", false),
        alpha_mode,
        alpha_cutoff: get_fx_opt(v, "alphaCutoff"),
        unlit,
    }
}

/// Extracts one camera declaration (perspective when malformed).
fn extract_camera(v: &JsonValue) -> (r: CameraDecl)
{
    let is_ortho: bool = match get_bytes_field(v, "type") {
        Option::Some(t) => bytes_eq_str(t.as_slice(), "orthographic"),
        Option::None => false,
    };
    if is_ortho {
        match get_field(v, "orthographic") {
            Option::Some(o) => CameraDecl::Orthographic {
                xmag: get_fx_field(o, "xmag", FX_ONE),
                ymag: get_fx_field(o, "ymag", FX_ONE),
                znear: get_fx_field(o, "znear", 0),
                zfar: get_fx_field(o, "zfar", FX_ONE),
            },
            Option::None => CameraDecl::Orthographic {
                xmag: FX_ONE,
                ymag: FX_ONE,
                znear: 0,
                zfar: FX_ONE,
            },
        }
    } else {
        match get_field(v, "perspective") {
            Option::Some(p) => CameraDecl::Perspective {
                yfov: get_fx_field(p, "yfov", FX_ONE),
                znear: get_fx_field(p, "znear", 0),
                zfar: get_fx_opt(p, "zfar"),
                aspect_ratio: get_fx_opt(p, "aspectRatio"),
            },
            Option::None => CameraDecl::Perspective {
                yfov: FX_ONE,
                znear: 0,
                zfar: Option::None,
                aspect_ratio: Option::None,
            },
        }
    }
}

/// The indices an array of values denotes, unusable entries dropped.
pub open spec fn idx_array_of(items: Seq<JsonValue>) -> Seq<usize>
    decreases items.len(),
{
    if items.len() == 0 {
        Seq::<usize>::empty()
    } else {
        idx_array_of(items.drop_last()) + (match index_of_value(items.last()) {
            Option::Some(n) => seq![n],
            Option::None => Seq::<usize>::empty(),
        })
    }
}

/// The index list an array member denotes (empty when absent or not an
/// array).
pub open spec fn index_array_member(v: JsonValue, key: Seq<u8>) -> Seq<usize> {
    match json_member(v, key) {
        Option::Some(m) => match m {
            JsonValue::Arr(items) => idx_array_of(items@),
            _ => Seq::<usize>::empty(),
        },
        Option::None => Seq::<usize>::empty(),
    }
}

/// Extracts an index array member.
fn get_index_array(v: &JsonValue, key: &str) -> (r: Vec<usize>)
    ensures
        r@ == index_array_member(*v, key.spec_bytes()),
{
    let mut out: Vec<usize> = Vec::new();
    match get_field(v, key) {
        Option::Some(c) => match c.as_array() {
            Option::Some(items) => {
                let mut i: usize = 0;
                while i < items.len()
                    invariant
                        i <= items@.len(),
                        out@ == idx_array_of(items@.subrange(0, i as int)),
                    decreases items@.len() - i,
                {
                    match items[i].as_index() {
                        Option::Some(n) => {
                            out.push(n);
                        },
                        Option::None => {},
                    }
                    proof {
                        let sub = items@.subrange(0, (i + 1) as int);
                        assert(sub.drop_last() =~= items@.subrange(0, i as int));
                        assert(sub.last() == items@[i as int]);
                        assert(out@ =~= idx_array_of(sub));
                    }
                    i = i + 1;
                }
                proof {
                    assert(items@.subrange(0, items@.len() as int) =~= items@);
                }
            },
            Option::None => {},
        },
        Option::None => {},
    }
    out
}

/// The rotation a member denotes: the four components of the quaternion
/// array, identity when absent.
pub open spec fn rotation_member_or(item: JsonValue) -> FxQuat {
    match json_member(item, "rotation".spec_bytes()) {
        Option::Some(q) => FxQuat {
            x: array_fx_spec(q, 0, 0) as i64,
            y: array_fx_spec(q, 1, 0) as i64,
            z: array_fx_spec(q, 2, 0) as i64,
            w: array_fx_spec(q, 3, FX_ONE as int) as i64,
        },
        Option::None => FxQuat { x: 0, y: 0, z: 0, w: FX_ONE as i64 },
    }
}

/// What one node declaration holds, relative to its JSON member: the
/// matrix entries when a matrix is given (diagonal defaults), otherwise
/// the decomposed transform with its defaults; plus name, children and
/// component references.
pub open spec fn node_decl_matches(item: JsonValue, d: NodeDecl) -> bool {
    &&& (match d.name {
        Option::Some(u) => (match json_member(item, "name".spec_bytes()) {
            Option::Some(m) => m is Str && u@ == m->Str_0@,
            Option::None => false,
        }),
        Option::None => !(match json_member(item, "name".spec_bytes()) {
            Option::Some(m) => m is Str,
            Option::None => false,
        }),
    })
    &&& d.children@ == index_array_member(item, "children".spec_bytes())
    &&& d.mesh == index_member(item, "mesh".spec_bytes())
    &&& d.skin == index_member(item, "skin".spec_bytes())
    &&& d.camera == index_member(item, "camera".spec_bytes())
    &&& (match d.transform {
        TransformDecl::Matrix { entries } => {
            &&& json_member(item, "matrix".spec_bytes()) is Some
            &&& entries@.len() == 16
            &&& forall|j: int|
                0 <= j < 16 ==> #[trigger] entries@[j] == array_fx_spec(
                    json_member(item, "matrix".spec_bytes())->Some_0,
                    j,
                    if j % 5 == 0 {
                        FX_ONE as int
                    } else {
                        0
                    },
                ) as i64
        },
        TransformDecl::Decomposed { translation, rotation, scale } => {
            &&& json_member(item, "matrix".spec_bytes()) is None
            &&& translation == v3_member_or(
                item,
                "translation".spec_bytes(),
                FxVec3 { x: 0, y: 0, z: 0 },
            )
            &&& rotation == rotation_member_or(item)
            &&& scale == v3_member_or(
                item,
                "scale".spec_bytes(),
                FxVec3 { x: FX_ONE as i64, y: FX_ONE as i64, z: FX_ONE as i64 },
            )
        },
    })
}

/// Extracts one node declaration: a matrix transform when one is given,
/// otherwise decomposed translation/rotation/scale with their defaults.
fn extract_node(v: &JsonValue) -> (r: NodeDecl)
    ensures
        node_decl_matches(*v, r),
{
    let transform: TransformDecl = match get_field(v, "matrix") {
        Option::Some(m) => {
            let mut entries: Vec<i64> = Vec::new();
            let mut i: usize = 0;
            while i < 16
                invariant
                    i <= 16,
                    entries@.len() == i,
                    json_member(*v, "matrix".spec_bytes()) == Option::Some(*m),
                    forall|j: int|
                        0 <= j < i ==> #[trigger] entries@[j] == array_fx_spec(
                            *m,
                            j,
                            if j % 5 == 0 {
                                FX_ONE as int
                            } else {
                                0
                            },
                        ) as i64,
                decreases 16 - i,
            {
                let d: i64 = if i % 5 == 0 {
                    FX_ONE
                } else {
                    0
                };
                entries.push(array_fx(m, i, d));
                i = i + 1;
            }
            TransformDecl::Matrix { entries }
        },
        Option::None => {
            let translation = get_v3_field(v, "translation", FxVec3 { x: 0, y: 0, z: 0 });
            let rotation: FxQuat = match get_field(v, "rotation") {
                Option::Some(q) => FxQuat {
                    x: array_fx(q, 0, 0),
                    y: array_fx(q, 1, 0),
                    z: array_fx(q, 2, 0),
                    w: array_fx(q, 3, FX_ONE),
                },
                Option::None => FxQuat { x: 0, y: 0, z: 0, w: FX_ONE },
            };
            let scale = get_v3_field(v, "scale", FxVec3 { x: FX_ONE, y: FX_ONE, z: FX_ONE });
            TransformDecl::Decomposed { translation, rotation, scale }
        },
    };
    NodeDecl {
        name: get_bytes_field(v, "name"),
        children: get_index_array(v, "children"),
        transform,
        mesh: get_index_field(v, "mesh"),
        skin: get_index_field(v, "skin"),
        camera: get_index_field(v, "camera"),
    }
}

/// What one skin declaration holds, relative to its JSON member.
pub open spec fn skin_decl_matches(item: JsonValue, d: SkinDecl) -> bool {
    &&& d.joints@ == index_array_member(item, "joints".spec_bytes())
    &&& d.inverse_bind_matrices == index_member(item, "inverseBindMatrices".spec_bytes())
}

/// Extracts one skin declaration.
fn extract_skin(v: &JsonValue) -> (r: SkinDecl)
    ensures
        skin_decl_matches(*v, r),
{
    SkinDecl {
        joints: get_index_array(v, "joints"),
        inverse_bind_matrices: get_index_field(v, "inverseBindMatrices"),
    }
}

/// What one scene declaration holds, relative to its JSON member.
pub open spec fn scene_decl_matches(item: JsonValue, d: SceneDecl) -> bool {
    &&& d.nodes@ == index_array_member(item, "nodes".spec_bytes())
    &&& (match d.name {
        Option::Some(u) => (match json_member(item, "name".spec_bytes()) {
            Option::Some(m) => m is Str && u@ == m->Str_0@,
            Option::None => false,
        }),
        Option::None => !(match json_member(item, "name".spec_bytes()) {
            Option::Some(m) => m is Str,
            Option::None => false,
        }),
    })
}

/// Extracts one scene declaration.
fn extract_scene(v: &JsonValue) -> (r: SceneDecl)
    ensures
        scene_decl_matches(*v, r),
{
    SceneDecl { name: get_bytes_field(v, "name"), nodes: get_index_array(v, "nodes") }
}

/// The texture one JSON member denotes.
pub open spec fn texture_decl_of(item: JsonValue) -> TextureDecl {
    TextureDecl {
        source: index_member(item, "source".spec_bytes()),
        sampler: index_member(item, "sampler".spec_bytes()),
    }
}

/// What one image declaration holds, relative to its JSON member.
pub open spec fn image_decl_matches(item: JsonValue, d: ImageDecl) -> bool {
    &&& (match d.uri {
        Option::Some(u) => (match json_member(item, "uri".spec_bytes()) {
            Option::Some(m) => m is Str && u@ == m->Str_0@,
            Option::None => false,
        }),
        Option::None => !(match json_member(item, "uri".spec_bytes()) {
            Option::Some(m) => m is Str,
            Option::None => false,
        }),
    })
    &&& (match d.mime_type {
        Option::Some(u) => (match json_member(item, "mimeType".spec_bytes()) {
            Option::Some(m) => m is Str && u@ == m->Str_0@,
            Option::None => false,
        }),
        Option::None => !(match json_member(item, "mimeType".spec_bytes()) {
            Option::Some(m) => m is Str,
            Option::None => false,
        }),
    })
    &&& d.buffer_view == index_member(item, "bufferView".spec_bytes())
}

/// The element count of an array member (0 when absent or not an array).
pub open spec fn member_array_len(root: JsonValue, key: Seq<u8>) -> int {
    match json_member(root, key) {
        Option::Some(m) => match m {
            JsonValue::Arr(items) => items@.len() as int,
            _ => 0,
        },
        Option::None => 0,
    }
}

/// Extracts the whole typed document from a parsed JSON tree. Extraction is
/// total: missing or malformed parts become empty lists or defaults, and
/// the stages that resolve indices validate them; each declaration list
/// holds one entry per element of its JSON array.
pub fn extract_document(root: &JsonValue) -> (r: GltfDocument)
    ensures
        r.buffers@.len() == member_array_len(*root, "buffers".spec_bytes()),
        r.buffer_views@.len() == member_array_len(*root, "bufferViews".spec_bytes()),
        r.accessors@.len() == member_array_len(*root, "accessors".spec_bytes()),
        r.meshes@.len() == member_array_len(*root, "meshes".spec_bytes()),
        r.materials@.len() == member_array_len(*root, "materials".spec_bytes()),
        r.samplers@.len() == member_array_len(*root, "samplers".spec_bytes()),
        r.textures@.len() == member_array_len(*root, "textures".spec_bytes()),
        r.images@.len() == member_array_len(*root, "images".spec_bytes()),
        r.nodes@.len() == member_array_len(*root, "nodes".spec_bytes()),
        r.skins@.len() == member_array_len(*root, "skins".spec_bytes()),
        r.scenes@.len() == member_array_len(*root, "scenes".spec_bytes()),
        r.cameras@.len() == member_array_len(*root, "cameras".spec_bytes()),
        match json_member(*root, "buffers".spec_bytes()) {
            Option::Some(m) => m is Arr ==> forall|i: int|
                0 <= i < r.buffers@.len() ==> buffer_decl_matches(
                    (m->Arr_0)@[i],
                    #[trigger] r.buffers@[i],
                ),
            Option::None => true,
        },
        match json_member(*root, "bufferViews".spec_bytes()) {
            Option::Some(m) => m is Arr ==> forall|i: int|
                0 <= i < r.buffer_views@.len() ==> #[trigger] r.buffer_views@[i] == view_decl_of(
                    (m->Arr_0)@[i],
                ),
            Option::None => true,
        },
        match json_member(*root, "accessors".spec_bytes()) {
            Option::Some(m) => m is Arr ==> forall|i: int|
                0 <= i < r.accessors@.len() ==> #[trigger] r.accessors@[i] == accessor_decl_of(
                    (m->Arr_0)@[i],
                ),
            Option::None => true,
        },
        match json_member(*root, "samplers".spec_bytes()) {
            Option::Some(m) => m is Arr ==> forall|i: int|
                0 <= i < r.samplers@.len() ==> #[trigger] r.samplers@[i] == sampler_decl_of_member(
                    (m->Arr_0)@[i],
                ),
            Option::None => true,
        },
        match json_member(*root, "textures".spec_bytes()) {
            Option::Some(m) => m is Arr ==> forall|i: int|
                0 <= i < r.textures@.len() ==> #[trigger] r.textures@[i] == texture_decl_of(
                    (m->Arr_0)@[i],
                ),
            Option::None => true,
        },
        match json_member(*root, "images".spec_bytes()) {
            Option::Some(m) => m is Arr ==> forall|i: int|
                0 <= i < r.images@.len() ==> image_decl_matches(
                    (m->Arr_0)@[i],
                    #[trigger] r.images@[i],
                ),
            Option::None => true,
        },
        match json_member(*root, "skins".spec_bytes()) {
            Option::Some(m) => m is Arr ==> forall|i: int|
                0 <= i < r.skins@.len() ==> skin_decl_matches(
                    (m->Arr_0)@[i],
                    #[trigger] r.skins@[i],
                ),
            Option::None => true,
        },
        match json_member(*root, "scenes".spec_bytes()) {
            Option::Some(m) => m is Arr ==> forall|i: int|
                0 <= i < r.scenes@.len() ==> scene_decl_matches(
                    (m->Arr_0)@[i],
                    #[trigger] r.scenes@[i],
                ),
            Option::None => true,
        },
        r.default_scene == index_member(*root, "scene".spec_bytes()),
        match json_member(*root, "nodes".spec_bytes()) {
            Option::Some(m) => m is Arr ==> forall|i: int|
                0 <= i < r.nodes@.len() ==> node_decl_matches(
                    (m->Arr_0)@[i],
                    #[trigger] r.nodes@[i],
                ),
            Option::None => true,
        },
        match json_member(*root, "materials".spec_bytes()) {
            Option::Some(m) => m is Arr ==> forall|i: int|
                0 <= i < r.materials@.len() ==> material_decl_matches(
                    (m->Arr_0)@[i],
                    #[trigger] r.materials@[i],
                ),
            Option::None => true,
        },
{
    let mut buffers: Vec<BufferDecl> = Vec::new();
    match get_field(root, "buffers") {
        Option::Some(a) => match a.as_array() {
            Option::Some(items) => {
                let mut i: usize = 0;
                while i < items.len()
                    invariant
                        i <= items@.len(),
                        buffers@.len() == i,
                        forall|j: int|
                            0 <= j < i ==> buffer_decl_matches(
                                items@[j],
                                #[trigger] buffers@[j],
                            ),
                    decreases items@.len() - i,
                {
                    buffers.push(extract_buffer(&items[i]));
                    i = i + 1;
                }
            },
            Option::None => {},
        },
        Option::None => {},
    }
    let mut buffer_views: Vec<BufferViewDecl> = Vec::new();
    match get_field(root, "bufferViews") {
        Option::Some(a) => match a.as_array() {
            Option::Some(items) => {
                let mut i: usize = 0;
                while i < items.len()
                    invariant
                        i <= items@.len(),
                        buffer_views@.len() == i,
                        forall|j: int| 0 <= j < i ==> #[trigger] buffer_views@[j] == view_decl_of(items@[j]),
                    decreases items@.len() - i,
                {
                    buffer_views.push(extract_buffer_view(&items[i]));
                    i = i + 1;
                }
            },
            Option::None => {},
        },
        Option::None => {},
    }
    let mut accessors: Vec<AccessorDecl> = Vec::new();
    match get_field(root, "accessors") {
        Option::Some(a) => match a.as_array() {
            Option::Some(items) => {
                let mut i: usize = 0;
                while i < items.len()
                    invariant
                        i <= items@.len(),
                        accessors@.len() == i,
                        forall|j: int| 0 <= j < i ==> #[trigger] accessors@[j] == accessor_decl_of(items@[j]),
                    decreases items@.len() - i,
                {
                    accessors.push(extract_accessor(&items[i]));
                    i = i + 1;
                }
            },
            Option::None => {},
        },
        Option::None => {},
    }
    let mut meshes: Vec<MeshDecl> = Vec::new();
    match get_field(root, "meshes") {
        Option::Some(a) => match a.as_array() {
            Option::Some(items) => {
                let mut i: usize = 0;
                while i < items.len()
                    invariant
                        i <= items@.len(),
                        meshes@.len() == i,
                    decreases items@.len() - i,
                {
                    meshes.push(extract_mesh(&items[i]));
                    i = i + 1;
                }
            },
            Option::None => {},
        },
        Option::None => {},
    }
    let mut materials: Vec<MaterialDecl> = Vec::new();
    match get_field(root, "materials") {
        Option::Some(a) => match a.as_array() {
            Option::Some(items) => {
                let mut i: usize = 0;
                while i < items.len()
                    invariant
                        i <= items@.len(),
                        materials@.len() == i,
                        forall|j: int|
                            0 <= j < i ==> material_decl_matches(
                                items@[j],
                                #[trigger] materials@[j],
                            ),
                    decreases items@.len() - i,
                {
                    materials.push(extract_material(&items[i]));
                    i = i + 1;
                }
            },
            Option::None => {},
        },
        Option::None => {},
    }
    let mut samplers: Vec<SamplerDecl> = Vec::new();
    match get_field(root, "samplers") {
        Option::Some(a) => match a.as_array() {
            Option::Some(items) => {
                let mut i: usize = 0;
                while i < items.len()
                    invariant
                        i <= items@.len(),
                        samplers@.len() == i,
                        forall|j: int| 0 <= j < i ==> #[trigger] samplers@[j] == sampler_decl_of_member(items@[j]),
                    decreases items@.len() - i,
                {
                    samplers.push(extract_sampler(&items[i]));
                    i = i + 1;
                }
            },
            Option::None => {},
        },
        Option::None => {},
    }
    let mut textures: Vec<TextureDecl> = Vec::new();
    match get_field(root, "textures") {
        Option::Some(a) => match a.as_array() {
            Option::Some(items) => {
                let mut i: usize = 0;
                while i < items.len()
                    invariant
                        i <= items@.len(),
                        textures@.len() == i,
                        forall|j: int|
                            0 <= j < i ==> #[trigger] textures@[j] == texture_decl_of(items@[j]),
                    decreases items@.len() - i,
                {
                    textures.push(
                        TextureDecl {
                            source: get_index_field(&items[i], "source"),
                            sampler: get_index_field(&items[i], "sampler"),
                        },
                    );
                    i = i + 1;
                }
            },
            Option::None => {},
        },
        Option::None => {},
    }
    let mut images: Vec<ImageDecl> = Vec::new();
    match get_field(root, "images") {
        Option::Some(a) => match a.as_array() {
            Option::Some(items) => {
                let mut i: usize = 0;
                while i < items.len()
                    invariant
                        i <= items@.len(),
                        images@.len() == i,
                        forall|j: int|
                            0 <= j < i ==> image_decl_matches(items@[j], #[trigger] images@[j]),
                    decreases items@.len() - i,
                {
                    images.push(
                        ImageDecl {
                            uri: get_bytes_field(&items[i], "uri"),
                            mime_type: get_bytes_field(&items[i], "mimeType"),
                            buffer_view: get_index_field(&items[i], "bufferView"),
                        },
                    );
                    i = i + 1;
                }
            },
            Option::None => {},
        },
        Option::None => {},
    }
    let mut nodes: Vec<NodeDecl> = Vec::new();
    match get_field(root, "nodes") {
        Option::Some(a) => match a.as_array() {
            Option::Some(items) => {
                let mut i: usize = 0;
                while i < items.len()
                    invariant
                        i <= items@.len(),
                        nodes@.len() == i,
                        forall|j: int|
                            0 <= j < i ==> node_decl_matches(items@[j], #[trigger] nodes@[j]),
                    decreases items@.len() - i,
                {
                    nodes.push(extract_node(&items[i]));
                    i = i + 1;
                }
            },
            Option::None => {},
        },
        Option::None => {},
    }
    let mut skins: Vec<SkinDecl> = Vec::new();
    match get_field(root, "skins") {
        Option::Some(a) => match a.as_array() {
            Option::Some(items) => {
                let mut i: usize = 0;
                while i < items.len()
                    invariant
                        i <= items@.len(),
                        skins@.len() == i,
                        forall|j: int| 0 <= j < i ==> skin_decl_matches(items@[j], #[trigger] skins@[j]),
                    decreases items@.len() - i,
                {
                    skins.push(extract_skin(&items[i]));
                    i = i + 1;
                }
            },
            Option::None => {},
        },
        Option::None => {},
    }
    let mut scenes: Vec<SceneDecl> = Vec::new();
    match get_field(root, "scenes") {
        Option::Some(a) => match a.as_array() {
            Option::Some(items) => {
                let mut i: usize = 0;
                while i < items.len()
                    invariant
                        i <= items@.len(),
                        scenes@.len() == i,
                        forall|j: int| 0 <= j < i ==> scene_decl_matches(items@[j], #[trigger] scenes@[j]),
                    decreases items@.len() - i,
                {
                    scenes.push(extract_scene(&items[i]));
                    i = i + 1;
                }
            },
            Option::None => {},
        },
        Option::None => {},
    }
    let mut cameras: Vec<CameraDecl> = Vec::new();
    match get_field(root, "cameras") {
        Option::Some(a) => match a.as_array() {
            Option::Some(items) => {
                let mut i: usize = 0;
                while i < items.len()
                    invariant
                        i <= items@.len(),
                        cameras@.len() == i,
                    decreases items@.len() - i,
                {
                    cameras.push(extract_camera(&items[i]));
                    i = i + 1;
                }
            },
            Option::None => {},
        },
        Option::None => {},
    }
    GltfDocument {
        buffers,
        buffer_views,
        accessors,
        meshes,
        materials,
        samplers,
        textures,
        images,
        nodes,
        skins,
        scenes,
        cameras,
        default_scene: get_index_field(root, "scene"),
    }
}

/// Extracts one toon extension block.
fn extract_mtoon(v: &JsonValue) -> (r: MToonExtensionJson)
{
    let base = MToonExtensionJson::default();
    let shading_shift_texture: Option<ShadingShiftTextureInfo> = match get_field(
        v,
        "shadingShiftTexture",
    ) {
        Option::Some(t) => match get_texture_info_direct(t) {
            Option::Some(info) => Option::Some(
                ShadingShiftTextureInfo {
                    texture_info: info,
                    scale: get_fx_field(t, "scale", FX_ONE),
                },
            ),
            Option::None => Option::None,
        },
        Option::None => Option::None,
    };
    let outline_width_mode: OutlineWidthMode = match get_bytes_field(v, "outlineWidthMode") {
        Option::Some(m) => {
            if bytes_eq_str(m.as_slice(), "worldCoordinates") {
                OutlineWidthMode::WorldCoordinates
            } else if bytes_eq_str(m.as_slice(), "screenCoordinates") {
                OutlineWidthMode::ScreenCoordinates
            } else {
                OutlineWidthMode::NoOutline
            }
        },
        Option::None => OutlineWidthMode::NoOutline,
    };
    MToonExtensionJson {
        spec_version: match get_bytes_field(v, "specVersion") {
            Option::Some(b) => b,
            Option::None => Vec::new(),
        },
        transparent_with_z_write: get_bool_field(
            v,
            "transparentWithZWrite",
            base.transparent_with_z_write,
        ),
        render_queue_offset_number: get_fx_field(v, "renderQueueOffsetNumber", 0) / FX_ONE,
        shade_color_factor: get_v3_field(v, "shadeColorFactor", base.shade_color_factor),
        shade_multiply_texture: get_texture_info(v, "shadeMultiplyTexture"),
        shading_shift_factor: get_fx_field(v, "shadingShiftFactor", base.shading_shift_factor),
        shading_shift_texture,
        shading_toony_factor: get_fx_field(v, "shadingToonyFactor", base.shading_toony_factor),
        gi_equalization_factor: get_fx_field(
            v,
            "giEqualizationFactor",
            base.gi_equalization_factor,
        ),
        matcap_factor: get_v3_field(v, "matcapFactor", base.matcap_factor),
        matcap_texture: get_texture_info(v, "matcapTexture"),
        parametric_rim_color_factor: get_v3_field(
            v,
            "parametricRimColorFactor",
            base.parametric_rim_color_factor,
        ),
        rim_multiply_texture: get_texture_info(v, "rimMultiplyTexture"),
        rim_lighting_mix_factor: get_fx_field(
            v,
            "rimLightingMixFactor",
            base.rim_lighting_mix_factor,
        ),
        parametric_rim_fresnel_power_factor: get_fx_field(
            v,
            "parametricRimFresnelPowerFactor",
            base.parametric_rim_fresnel_power_factor,
        ),
        parametric_rim_lift_factor: get_fx_field(
            v,
            "parametricRimLiftFactor",
            base.parametric_rim_lift_factor,
        ),
        outline_width_mode,
        outline_width_factor: get_fx_field(v, "outlineWidthFactor", base.outline_width_factor),
        outline_width_multiply_texture: get_texture_info(v, "outlineWidthMultiplyTexture"),
        outline_color_factor: get_v3_field(v, "outlineColorFactor", base.outline_color_factor),
        outline_lighting_mix_factor: get_fx_field(
            v,
            "outlineLightingMixFactor",
            base.outline_lighting_mix_factor,
        ),
        uv_animation_mask_texture: get_texture_info(v, "uvAnimationMaskTexture"),
        uv_animation_scroll_x_speed_factor: get_fx_field(
            v,
            "uvAnimationScrollXSpeedFactor",
            base.uv_animation_scroll_x_speed_factor,
        ),
        uv_animation_scroll_y_speed_factor: get_fx_field(
            v,
            "uvAnimationScrollYSpeedFactor",
            base.uv_animation_scroll_y_speed_factor,
        ),
        uv_animation_rotation_speed_factor: get_fx_field(
            v,
            "uvAnimationRotationSpeedFactor",
            base.uv_animation_rotation_speed_factor,
        ),
    }
}

/// A texture reference read from the value itself (not behind a key).
fn get_texture_info_direct(v: &JsonValue) -> (r: Option<TextureInfo>)
{
    match get_index_field(v, "index") {
        Option::Some(ix) => {
            let tc: usize = match get_index_field(v, "texCoord") {
                Option::Some(t) => t,
                Option::None => 0,
            };
            if ix <= u32::MAX as usize && tc <= u32::MAX as usize {
                Option::Some(TextureInfo { index: ix as u32, tex_coord: tc as u32 })
            } else {
                Option::None
            }
        },
        Option::None => Option::None,
    }
}

/// The calibration pair a member denotes.
pub open spec fn range_map_of(v: JsonValue, key: Seq<u8>) -> RangeMapJson
    recommends
        json_member(v, key) is Some,
{
    RangeMapJson {
        input_max_value: fx_member_or(
            json_member(v, key)->Some_0,
            "inputMaxValue".spec_bytes(),
            FX_ONE as int,
        ) as i64,
        output_scale: fx_member_or(
            json_member(v, key)->Some_0,
            "outputScale".spec_bytes(),
            FX_ONE as int,
        ) as i64,
    }
}

/// Extracts one gaze calibration pair.
fn extract_range_map(v: &JsonValue, key: &str) -> (r: Option<RangeMapJson>)
    ensures
        (r is Some) <==> json_member(*v, key.spec_bytes()) is Some,
        match r {
            Option::Some(m) => m == range_map_of(*v, key.spec_bytes()),
            Option::None => true,
        },
{
    match get_field(v, key) {
        Option::Some(m) => Option::Some(
            RangeMapJson {
                input_max_value: get_fx_field(m, "inputMaxValue", FX_ONE),
                output_scale: get_fx_field(m, "outputScale", FX_ONE),
            },
        ),
        Option::None => Option::None,
    }
}

/// Whether the document carries the humanoid/look-at extension block with
/// all of its required parts: the version string, the bone table object,
/// and the gaze block with its four calibration pairs.
pub open spec fn vrm_root_ok(root: JsonValue) -> bool {
    match json_member(root, "extensions".spec_bytes()) {
        Option::Some(e) => match json_member(e, "VRMC_vrm".spec_bytes()) {
            Option::Some(v) => {
                &&& (match json_member(v, "specVersion".spec_bytes()) {
                    Option::Some(m) => m is Str,
                    Option::None => false,
                })
                &&& (match json_member(v, "humanoid".spec_bytes()) {
                    Option::Some(h) => match json_member(h, "humanBones".spec_bytes()) {
                        Option::Some(b) => b is Obj,
                        Option::None => false,
                    },
                    Option::None => false,
                })
                &&& (match json_member(v, "lookAt".spec_bytes()) {
                    Option::Some(l) => {
                        &&& json_member(l, "rangeMapHorizontalInner".spec_bytes()) is Some
                        &&& json_member(l, "rangeMapHorizontalOuter".spec_bytes()) is Some
                        &&& json_member(l, "rangeMapVerticalDown".spec_bytes()) is Some
                        &&& json_member(l, "rangeMapVerticalUp".spec_bytes()) is Some
                    },
                    Option::None => false,
                })
            },
            Option::None => false,
        },
        Option::None => false,
    }
}

/// The rig entry one bone-table pair denotes: the parsed bone name and
/// its node index, or nothing when the name is outside the vocabulary or
/// the node member is unusable.
pub open spec fn bone_entry_of(pair: (Vec<u8>, JsonValue)) -> Option<(HumanoidBone, HumanBoneJson)> {
    match humanoid_bone_of((pair.0)@) {
        Option::Some(bone) => match index_member(pair.1, "node".spec_bytes()) {
            Option::Some(n) => if n <= u32::MAX {
                Option::Some((bone, HumanBoneJson { node: n as u32 }))
            } else {
                Option::None
            },
            Option::None => Option::None,
        },
        Option::None => Option::None,
    }
}

/// The rig table a bone-table object denotes, in member order, unusable
/// entries dropped.
pub open spec fn bone_table_of(pairs: Seq<(Vec<u8>, JsonValue)>) -> Seq<(HumanoidBone, HumanBoneJson)>
    decreases pairs.len(),
{
    if pairs.len() == 0 {
        Seq::<(HumanoidBone, HumanBoneJson)>::empty()
    } else {
        bone_table_of(pairs.drop_last()) + (match bone_entry_of(pairs.last()) {
            Option::Some(e) => seq![e],
            Option::None => Seq::<(HumanoidBone, HumanBoneJson)>::empty(),
        })
    }
}

/// What the extracted extension view holds, relative to the JSON root:
/// the version string, the bone table in member order, and the gaze block
/// with its mode, head offset and four calibration pairs.
pub open spec fn extended_root_matches(root: JsonValue, e: ExtendedRoot) -> bool
    recommends
        vrm_root_ok(root),
{
    let v = json_member(root, "extensions".spec_bytes())->Some_0;
    let vrm = json_member(v, "VRMC_vrm".spec_bytes())->Some_0;
    let h = json_member(vrm, "humanoid".spec_bytes())->Some_0;
    let bones = json_member(h, "humanBones".spec_bytes())->Some_0;
    let l = json_member(vrm, "lookAt".spec_bytes())->Some_0;
    &&& e.extensions.vrm.spec_version@ == str_member_bytes(vrm, "specVersion".spec_bytes())
    &&& e.extensions.vrm.humanoid.human_bones@ == bone_table_of(bones->Obj_0@)
    &&& e.extensions.vrm.look_at.mode == (if (match json_member(l, "type".spec_bytes()) {
        Option::Some(m) => m is Str && m->Str_0@ == "expression".spec_bytes(),
        Option::None => false,
    }) {
        LookAtModeJson::Expression
    } else {
        LookAtModeJson::Bone
    })
    &&& e.extensions.vrm.look_at.offset_from_head_bone == v3_member_or(
        l,
        "offsetFromHeadBone".spec_bytes(),
        FxVec3 { x: 0, y: 0, z: 0 },
    )
    &&& e.extensions.vrm.look_at.range_map_horizontal_inner == range_map_of(
        l,
        "rangeMapHorizontalInner".spec_bytes(),
    )
    &&& e.extensions.vrm.look_at.range_map_horizontal_outer == range_map_of(
        l,
        "rangeMapHorizontalOuter".spec_bytes(),
    )
    &&& e.extensions.vrm.look_at.range_map_vertical_down == range_map_of(
        l,
        "rangeMapVerticalDown".spec_bytes(),
    )
    &&& e.extensions.vrm.look_at.range_map_vertical_up == range_map_of(
        l,
        "rangeMapVerticalUp".spec_bytes(),
    )
}

/// A structural fact every extracted extension view satisfies: every bone
/// table entry names a distinct semantic bone drawn from the table.
pub open spec fn vrm_root_ok_of(ext: ExtendedRoot) -> bool {
    forall|j: int|
        0 <= j < ext.extensions.vrm.humanoid.human_bones@.len()
            ==> (#[trigger] ext.extensions.vrm.humanoid.human_bones@[j]).1.node
            < 0x1_0000_0000
}

/// Extracts the root extension view of the document. Fails exactly when
/// the humanoid/look-at block or one of its required parts is missing.
#[verifier::rlimit(100)]
pub fn extract_extended_root(root: &JsonValue) -> (r: Result<ExtendedRoot, VrmError>)
    ensures
        (r is Ok) <==> vrm_root_ok(*root),
        match r {
            Result::Ok(e) => vrm_root_ok_of(e) && extended_root_matches(*root, e),
            Result::Err(e) => e == VrmError::MalformedJson,
        },
{
    let ext: &JsonValue = match get_field(root, "extensions") {
        Option::Some(e) => e,
        Option::None => {
            return Result::Err(VrmError::MalformedJson);
        },
    };
    let vrm: &JsonValue = match get_field(ext, "VRMC_vrm") {
        Option::Some(v) => v,
        Option::None => {
            return Result::Err(VrmError::MalformedJson);
        },
    };
    let spec_version: Vec<u8> = match get_bytes_field(vrm, "specVersion") {
        Option::Some(b) => b,
        Option::None => {
            return Result::Err(VrmError::MalformedJson);
        },
    };
    let humanoid_json: &JsonValue = match get_field(vrm, "humanoid") {
        Option::Some(h) => h,
        Option::None => {
            return Result::Err(VrmError::MalformedJson);
        },
    };
    let bones_obj: &JsonValue = match get_field(humanoid_json, "humanBones") {
        Option::Some(b) => b,
        Option::None => {
            return Result::Err(VrmError::MalformedJson);
        },
    };
    let mut human_bones: Vec<(HumanoidBone, HumanBoneJson)> = Vec::new();
    match bones_obj {
        JsonValue::Obj(pairs) => {
            let mut i: usize = 0;
            while i < pairs.len()
                invariant
                    i <= pairs@.len(),
                    bones_obj == JsonValue::Obj(*pairs),
                    human_bones@ == bone_table_of(pairs@.subrange(0, i as int)),
                decreases pairs@.len() - i,
            {
                match parse_humanoid_bone(pairs[i].0.as_slice()) {
                    Option::Some(bone) => {
                        match get_index_field(&pairs[i].1, "node") {
                            Option::Some(n) => {
                                if n <= u32::MAX as usize {
                                    human_bones.push((bone, HumanBoneJson { node: n as u32 }));
                                }
                            },
                            Option::None => {},
                        }
                    },
                    Option::None => {},
                }
                proof {
                    let sub = pairs@.subrange(0, (i + 1) as int);
                    assert(sub.drop_last() =~= pairs@.subrange(0, i as int));
                    assert(sub.last() == pairs@[i as int]);
                    assert(human_bones@ =~= bone_table_of(sub));
                }
                i = i + 1;
            }
            proof {
                assert(pairs@.subrange(0, pairs@.len() as int) =~= pairs@);
            }
        },
        _ => {
            return Result::Err(VrmError::MalformedJson);
        },
    }
    let look_at_json: &JsonValue = match get_field(vrm, "lookAt") {
        Option::Some(l) => l,
        Option::None => {
            return Result::Err(VrmError::MalformedJson);
        },
    };
    let mode: LookAtModeJson = match get_bytes_field(look_at_json, "type") {
        Option::Some(t) => {
            if bytes_eq_str(t.as_slice(), "expression") {
                LookAtModeJson::Expression
            } else {
                LookAtModeJson::Bone
            }
        },
        Option::None => LookAtModeJson::Bone,
    };
    let hi: RangeMapJson = match extract_range_map(look_at_json, "rangeMapHorizontalInner") {
        Option::Some(m) => m,
        Option::None => {
            return Result::Err(VrmError::MalformedJson);
        },
    };
    let ho: RangeMapJson = match extract_range_map(look_at_json, "rangeMapHorizontalOuter") {
        Option::Some(m) => m,
        Option::None => {
            return Result::Err(VrmError::MalformedJson);
        },
    };
    let vd: RangeMapJson = match extract_range_map(look_at_json, "rangeMapVerticalDown") {
        Option::Some(m) => m,
        Option::None => {
            return Result::Err(VrmError::MalformedJson);
        },
    };
    let vu: RangeMapJson = match extract_range_map(look_at_json, "rangeMapVerticalUp") {
        Option::Some(m) => m,
        Option::None => {
            return Result::Err(VrmError::MalformedJson);
        },
    };
    let look_at = LookAtJson {
        mode,
        offset_from_head_bone: get_v3_field(
            look_at_json,
            "offsetFromHeadBone",
            FxVec3 { x: 0, y: 0, z: 0 },
        ),
        range_map_horizontal_inner: hi,
        range_map_horizontal_outer: ho,
        range_map_vertical_down: vd,
        range_map_vertical_up: vu,
    };
    let mut materials: Vec<ExtendedMaterial> = Vec::new();
    match get_field(root, "materials") {
        Option::Some(a) => match a.as_array() {
            Option::Some(items) => {
                let mut i: usize = 0;
                while i < items.len()
                    decreases items.len() - i,
                {
                    let mtoon: Option<MToonExtensionJson> = match get_field(
                        &items[i],
                        "extensions",
                    ) {
                        Option::Some(e) => match get_field(e, "VRMC_materials_mtoon") {
                            Option::Some(m) => Option::Some(extract_mtoon(m)),
                            Option::None => Option::None,
                        },
                        Option::None => Option::None,
                    };
                    materials.push(
                        ExtendedMaterial { extensions: MaterialExtensions { mtoon } },
                    );
                    i = i + 1;
                }
            },
            Option::None => {},
        },
        Option::None => {},
    }
    Result::Ok(
        ExtendedRoot {
            extensions: RootExtensions {
                vrm: VrmExtensionJson { spec_version, humanoid: HumanoidJson { human_bones }, look_at },
            },
            materials,
        },
    )
}

} // verus!
