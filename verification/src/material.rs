//! The material resolver: standard and toon variants.
//!
//! Each declared material yields exactly one variant: the toon variant when
//! the extension root supplies a toon block for its index, the standard
//! variant otherwise. Cull mode is off exactly for double-sided materials.

use vstd::prelude::*;
use vstd::string::StringSliceAdditionalSpecFns;

use crate::document::{
    bytes_eq_str, ColorFactor, ExtendedMaterial, MaterialDecl, MToonExtensionJson, TextureInfo,
};
use crate::fixed::FX_ONE;
use crate::geom::FxVec3;

verus! {

/// The face culled during rasterization.
#[derive(Clone, Copy, Debug, PartialEq, Eq, Structural)]
pub enum CullFace {
    /// Front faces culled.
    Front,
    /// Back faces culled.
    Back,
}

/// How alpha is interpreted.
#[derive(Clone, Copy, Debug, PartialEq, Eq, Structural)]
pub enum AlphaMode {
    /// Alpha ignored.
    Opaque,
    /// Cut off below the threshold.
    Mask {
        /// The cutoff threshold (Q47.16).
        cutoff: i64,
    },
    /// Alpha blended.
    Blend,
}

/// Maps the declared alpha-mode token: MASK takes the declared cutoff or
/// one half; BLEND blends; everything else is opaque.
pub fn alpha_mode(material: &MaterialDecl) -> (r: AlphaMode)
    ensures
        r == alpha_mode_spec(*material),
{
    if bytes_eq_str(material.alpha_mode.as_slice(), "MASK") {
        let cutoff: i64 = match material.alpha_cutoff {
            Option::Some(c) => c,
            Option::None => 32768,
        };
        AlphaMode::Mask { cutoff }
    } else if bytes_eq_str(material.alpha_mode.as_slice(), "BLEND") {
        AlphaMode::Blend
    } else {
        AlphaMode::Opaque
    }
}

/// The alpha mode a declaration denotes.
pub open spec fn alpha_mode_spec(material: MaterialDecl) -> AlphaMode {
    if material.alpha_mode@ == "MASK".spec_bytes() {
        AlphaMode::Mask {
            cutoff: match material.alpha_cutoff {
                Option::Some(c) => c,
                Option::None => 32768,
            },
        }
    } else if material.alpha_mode@ == "BLEND".spec_bytes() {
        AlphaMode::Blend
    } else {
        AlphaMode::Opaque
    }
}

/// The cull mode of a material: off exactly when double-sided.
pub open spec fn cull_mode_spec(double_sided: bool) -> Option<CullFace> {
    if double_sided {
        Option::None
    } else {
        Option::Some(CullFace::Back)
    }
}

/// A resolved standard (physically-based) material.
#[derive(Clone, Copy, Debug, PartialEq, Eq, Structural)]
pub struct StandardMaterial {
    /// Base color factor.
    pub base_color: ColorFactor,
    /// Base color texture index.
    pub base_color_texture: Option<TextureInfo>,
    /// Roughness factor.
    pub perceptual_roughness: i64,
    /// Metallic factor.
    pub metallic: i64,
    /// Metallic/roughness texture.
    pub metallic_roughness_texture: Option<TextureInfo>,
    /// Normal map texture.
    pub normal_map_texture: Option<TextureInfo>,
    /// Occlusion texture.
    pub occlusion_texture: Option<TextureInfo>,
    /// Emissive factor.
    pub emissive: FxVec3,
    /// Emissive texture.
    pub emissive_texture: Option<TextureInfo>,
    /// Whether both faces are drawn.
    pub double_sided: bool,
    /// Culled face; absent exactly when double-sided.
    pub cull_mode: Option<CullFace>,
    /// Whether lighting is skipped.
    pub unlit: bool,
    /// Alpha interpretation.
    pub alpha_mode: AlphaMode,
}

/// A resolved toon material.
#[derive(Clone, Copy, Debug, PartialEq, Eq, Structural)]
pub struct MToonMaterial {
    /// Alpha interpretation.
    pub alpha_mode: AlphaMode,
    /// Whether both faces are drawn.
    pub double_sided: bool,
    /// Culled face; absent exactly when double-sided.
    pub cull_mode: Option<CullFace>,
    /// Whether transparent geometry writes depth.
    pub transparent_with_z_write: bool,
    /// Whether fog applies.
    pub fog_enabled: bool,
    /// Draw-ordering bias.
    pub depth_bias: i64,
    /// Base color factor.
    pub base_color: ColorFactor,
    /// Base color texture.
    pub base_color_texture: Option<TextureInfo>,
    /// Emissive factor.
    pub emissive: FxVec3,
    /// Emissive texture.
    pub emissive_texture: Option<TextureInfo>,
    /// Normal map texture.
    pub normal_map_texture: Option<TextureInfo>,
    /// Shade color factor.
    pub shade_color: FxVec3,
    /// Shade color texture.
    pub shade_color_texture: Option<TextureInfo>,
    /// Shading boundary shift.
    pub shading_shift_factor: i64,
    /// Scale of the shading-shift texture.
    pub shading_shift_scale: i64,
    /// Shading-shift texture.
    pub shading_shift_texture: Option<TextureInfo>,
    /// Banding factor.
    pub shading_toony_factor: i64,
    /// Global-illumination equalization factor.
    pub gi_equalization_factor: i64,
    /// Matcap color factor.
    pub matcap_factor: FxVec3,
    /// Matcap texture.
    pub matcap_texture: Option<TextureInfo>,
    /// Parametric rim color factor.
    pub parametric_rim_color_factor: FxVec3,
    /// Rim color texture.
    pub rim_color_texture: Option<TextureInfo>,
    /// Rim lighting mix factor.
    pub rim_lighting_mix_factor: i64,
    /// Parametric rim fresnel power.
    pub parametric_rim_fresnel_power_factor: i64,
    /// Parametric rim lift.
    pub parametric_rim_lift_factor: i64,
    /// UV-animation mask texture.
    pub uv_animation_mask_texture: Option<TextureInfo>,
    /// UV scroll speed along x.
    pub uv_animation_scroll_x_speed_factor: i64,
    /// UV scroll speed along y.
    pub uv_animation_scroll_y_speed_factor: i64,
    /// UV rotation speed.
    pub uv_animation_rotation_speed_factor: i64,
}

/// A resolved material: exactly one of the two variants.
#[derive(Clone, Copy, Debug, PartialEq, Eq, Structural)]
pub enum Material {
    /// The physically-based variant.
    Standard(StandardMaterial),
    /// The toon variant.
    Toon(MToonMaterial),
}

impl Material {
    /// Both variants keep the cull rule: culling off exactly when
    /// double-sided.
    pub open spec fn cull_rule_ok(self) -> bool {
        match self {
            Material::Standard(m) => m.cull_mode == cull_mode_spec(m.double_sided),
            Material::Toon(m) => m.cull_mode == cull_mode_spec(m.double_sided),
        }
    }
}

/// Everything resolving one material promises, given the toon block the
/// extension view supplies for its index (when any).
pub open spec fn material_matches(
    material: MaterialDecl,
    mtoon: Option<MToonExtensionJson>,
    r: Material,
) -> bool {
    &&& ((r is Toon) <==> (mtoon is Some))
    &&& r.cull_rule_ok()
    &&& match r {
        Material::Standard(m) => {
            &&& m.alpha_mode == alpha_mode_spec(material)
            &&& m.double_sided == material.double_sided
            &&& m.base_color == material.base_color_factor
            &&& m.base_color_texture == material.base_color_texture
            &&& m.perceptual_roughness == material.roughness_factor
            &&& m.metallic == material.metallic_factor
            &&& m.metallic_roughness_texture == material.metallic_roughness_texture
            &&& m.normal_map_texture == material.normal_texture
            &&& m.occlusion_texture == material.occlusion_texture
            &&& m.emissive == material.emissive_factor
            &&& m.emissive_texture == material.emissive_texture
            &&& m.unlit == material.unlit
        },
        Material::Toon(m) => {
            &&& mtoon is Some
            &&& {
                let toon = mtoon->Some_0;
                &&& m.alpha_mode == alpha_mode_spec(material)
                &&& m.double_sided == material.double_sided
                &&& m.transparent_with_z_write == toon.transparent_with_z_write
                &&& m.fog_enabled == true
                &&& m.depth_bias == toon.render_queue_offset_number
                &&& m.base_color == material.base_color_factor
                &&& m.base_color_texture == material.base_color_texture
                &&& m.emissive == material.emissive_factor
                &&& m.emissive_texture == material.emissive_texture
                &&& m.normal_map_texture == material.normal_texture
                &&& m.shade_color == toon.shade_color_factor
                &&& m.shade_color_texture == toon.shade_multiply_texture
                &&& m.shading_shift_factor == toon.shading_shift_factor
                &&& m.shading_shift_texture == (match toon.shading_shift_texture {
                    Option::Some(t) => Option::Some(t.texture_info),
                    Option::None => Option::None,
                })
                &&& m.shading_shift_scale == (match toon.shading_shift_texture {
                    Option::Some(t) => t.scale,
                    Option::None => FX_ONE as i64,
                })
                &&& m.shading_toony_factor == toon.shading_toony_factor
                &&& m.gi_equalization_factor == toon.gi_equalization_factor
                &&& m.matcap_factor == toon.matcap_factor
                &&& m.matcap_texture == toon.matcap_texture
                &&& m.parametric_rim_color_factor == toon.parametric_rim_color_factor
                &&& m.rim_color_texture == toon.rim_multiply_texture
                &&& m.rim_lighting_mix_factor == toon.rim_lighting_mix_factor
                &&& m.parametric_rim_fresnel_power_factor
                    == toon.parametric_rim_fresnel_power_factor
                &&& m.parametric_rim_lift_factor == toon.parametric_rim_lift_factor
                &&& m.uv_animation_mask_texture == toon.uv_animation_mask_texture
                &&& m.uv_animation_scroll_x_speed_factor
                    == toon.uv_animation_scroll_x_speed_factor
                &&& m.uv_animation_scroll_y_speed_factor
                    == toon.uv_animation_scroll_y_speed_factor
                &&& m.uv_animation_rotation_speed_factor
                    == toon.uv_animation_rotation_speed_factor
            }
        },
    }
}

/// The toon block an extension view supplies for one material entry.
pub open spec fn mtoon_of_ext(ext: Option<&ExtendedMaterial>) -> Option<MToonExtensionJson> {
    match ext {
        Option::Some(e) => e.extensions.mtoon,
        Option::None => Option::None,
    }
}

/// Resolves one material: the toon variant exactly when the extension view
/// carries a toon block for it, the standard variant otherwise; either way
/// the cull rule holds and the alpha mode follows the declared token.
pub fn load_material(material: &MaterialDecl, ext: Option<&ExtendedMaterial>) -> (r: Material)
    ensures
        material_matches(*material, mtoon_of_ext(ext), r),
        (r is Toon) <==> (match ext {
            Option::Some(e) => e.extensions.mtoon is Some,
            Option::None => false,
        }),
{
    let am = alpha_mode(material);
    let cull: Option<CullFace> = if material.double_sided {
        Option::None
    } else {
        Option::Some(CullFace::Back)
    };
    let has_toon: bool = match ext {
        Option::Some(e) => match &e.extensions.mtoon {
            Option::Some(_) => true,
            Option::None => false,
        },
        Option::None => false,
    };
    if has_toon {
        let toon: &MToonExtensionJson = match ext {
            Option::Some(e) => match &e.extensions.mtoon {
                Option::Some(t) => t,
                Option::None => {
                    proof {
                        assert(false);
                    }
                    unreached()
                },
            },
            Option::None => {
                proof {
                    assert(false);
                }
                unreached()
            },
        };
        let (shift_tex, shift_scale): (Option<TextureInfo>, i64) = match &toon.shading_shift_texture {
            Option::Some(t) => (Option::Some(t.texture_info), t.scale),
            Option::None => (Option::None, FX_ONE),
        };
        Material::Toon(
            MToonMaterial {
                alpha_mode: am,
                double_sided: material.double_sided,
                cull_mode: cull,
                transparent_with_z_write: toon.transparent_with_z_write,
                fog_enabled: true,
                depth_bias: toon.render_queue_offset_number,
                base_color: material.base_color_factor,
                base_color_texture: material.base_color_texture,
                emissive: material.emissive_factor,
                emissive_texture: material.emissive_texture,
                normal_map_texture: material.normal_texture,
                shade_color: toon.shade_color_factor,
                shade_color_texture: toon.shade_multiply_texture,
                shading_shift_factor: toon.shading_shift_factor,
                shading_shift_scale: shift_scale,
                shading_shift_texture: shift_tex,
                shading_toony_factor: toon.shading_toony_factor,
                gi_equalization_factor: toon.gi_equalization_factor,
                matcap_factor: toon.matcap_factor,
                matcap_texture: toon.matcap_texture,
                parametric_rim_color_factor: toon.parametric_rim_color_factor,
                rim_color_texture: toon.rim_multiply_texture,
                rim_lighting_mix_factor: toon.rim_lighting_mix_factor,
                parametric_rim_fresnel_power_factor: toon.parametric_rim_fresnel_power_factor,
                parametric_rim_lift_factor: toon.parametric_rim_lift_factor,
                uv_animation_mask_texture: toon.uv_animation_mask_texture,
                uv_animation_scroll_x_speed_factor: toon.uv_animation_scroll_x_speed_factor,
                uv_animation_scroll_y_speed_factor: toon.uv_animation_scroll_y_speed_factor,
                uv_animation_rotation_speed_factor: toon.uv_animation_rotation_speed_factor,
            },
        )
    } else {
        Material::Standard(
            StandardMaterial {
                base_color: material.base_color_factor,
                base_color_texture: material.base_color_texture,
                perceptual_roughness: material.roughness_factor,
                metallic: material.metallic_factor,
                metallic_roughness_texture: material.metallic_roughness_texture,
                normal_map_texture: material.normal_texture,
                occlusion_texture: material.occlusion_texture,
                emissive: material.emissive_factor,
                emissive_texture: material.emissive_texture,
                double_sided: material.double_sided,
                cull_mode: cull,
                unlit: material.unlit,
                alpha_mode: am,
            },
        )
    }
}

/// True when the declaration marks texture t as linear (non-color) data:
/// used as a normal, occlusion or metallic/roughness map.
pub open spec fn marks_linear(m: MaterialDecl, t: int) -> bool {
    ||| (match m.normal_texture {
        Option::Some(info) => info.index == t,
        Option::None => false,
    })
    ||| (match m.occlusion_texture {
        Option::Some(info) => info.index == t,
        Option::None => false,
    })
    ||| (match m.metallic_roughness_texture {
        Option::Some(info) => info.index == t,
        Option::None => false,
    })
}

/// A texture is linear when some material uses it as a normal, occlusion
/// or metallic/roughness map.
pub open spec fn linear_texture_spec(materials: Seq<MaterialDecl>, t: int) -> bool {
    exists|i: int| 0 <= i < materials.len() && marks_linear(#[trigger] materials[i], t)
}

/// Computes, for each texture index, whether it must be treated as linear
/// (gamma-uncorrected) when decoded.
pub fn compute_linear_textures(materials: &Vec<MaterialDecl>, texture_count: usize) -> (r: Vec<
    bool,
>)
    ensures
        r@.len() == texture_count,
        forall|t: int|
            0 <= t < texture_count ==> (#[trigger] r@[t] <==> linear_texture_spec(materials@, t)),
{
    let mut r: Vec<bool> = Vec::new();
    let mut t: usize = 0;
    while t < texture_count
        invariant
            t <= texture_count,
            r@.len() == t,
            forall|u: int|
                0 <= u < t ==> (#[trigger] r@[u] <==> linear_texture_spec(materials@, u)),
        decreases texture_count - t,
    {
        let mut found: bool = false;
        let mut i: usize = 0;
        while i < materials.len()
            invariant
                i <= materials@.len(),
                found <==> exists|j: int|
                    0 <= j < i && marks_linear(#[trigger] materials@[j], t as int),
            decreases materials@.len() - i,
        {
            let m: &MaterialDecl = &materials[i];
            let mut hit: bool = false;
            match &m.normal_texture {
                Option::Some(info) => {
                    if info.index as usize == t {
                        hit = true;
                    }
                },
                Option::None => {},
            }
            match &m.occlusion_texture {
                Option::Some(info) => {
                    if info.index as usize == t {
                        hit = true;
                    }
                },
                Option::None => {},
            }
            match &m.metallic_roughness_texture {
                Option::Some(info) => {
                    if info.index as usize == t {
                        hit = true;
                    }
                },
                Option::None => {},
            }
            proof {
                assert(hit <==> marks_linear(materials@[i as int], t as int));
            }
            found = found || hit;
            i = i + 1;
        }
        r.push(found);
        t = t + 1;
    }
    r
}

/// The pipeline key of a toon material: what specializes its pipeline.
#[derive(Clone, Copy, Debug, PartialEq, Eq, Structural)]
pub struct MToonMaterialKey {
    /// The culled face.
    pub cull_mode: Option<CullFace>,
    /// The depth bias.
    pub depth_bias: i64,
}

/// The bit a condition contributes to the toon shader flags word.
pub open spec fn flag_bit(cond: bool, bit: int) -> int {
    if cond {
        bit
    } else {
        0
    }
}

/// The packed shader flags of a toon material: one presence bit per
/// texture, the double-sided and fog bits, and the alpha mode in the top
/// bits.
pub open spec fn mtoon_flags_spec(m: MToonMaterial, two_component_normal_map: bool) -> int {
    flag_bit(m.base_color_texture is Some, 1) + flag_bit(m.emissive_texture is Some, 2) + flag_bit(
        m.normal_map_texture is Some,
        4,
    ) + flag_bit(two_component_normal_map && m.normal_map_texture is Some, 8) + flag_bit(
        m.shade_color_texture is Some,
        16,
    ) + flag_bit(m.shading_shift_texture is Some, 32) + flag_bit(m.matcap_texture is Some, 64)
        + flag_bit(m.rim_color_texture is Some, 128) + flag_bit(
        m.uv_animation_mask_texture is Some,
        256,
    ) + flag_bit(m.double_sided, 512) + flag_bit(m.fog_enabled, 1024) + (match m.alpha_mode {
        AlphaMode::Opaque => 0int,
        AlphaMode::Mask { .. } => 0x2000_0000int,
        AlphaMode::Blend => 0x4000_0000int,
    })
}

/// The uniform block handed to the toon shader.
#[derive(Clone, Copy, Debug, PartialEq, Eq, Structural)]
pub struct MToonMaterialUniform {
    /// The packed flags.
    pub flags: u32,
    /// Base color.
    pub base_color: ColorFactor,
    /// Shade color.
    pub shade_color: FxVec3,
    /// Emissive color.
    pub emissive: FxVec3,
    /// Mask cutoff (one half outside mask mode).
    pub alpha_cutoff: i64,
    /// Shading boundary shift.
    pub shading_shift_factor: i64,
    /// Shading-shift texture scale.
    pub shading_shift_scale: i64,
    /// Banding factor.
    pub shading_toony_factor: i64,
    /// Global-illumination equalization factor.
    pub gi_equalization_factor: i64,
    /// Matcap factor.
    pub matcap_factor: FxVec3,
    /// Parametric rim color factor.
    pub parametric_rim_color_factor: FxVec3,
    /// Rim lighting mix factor.
    pub rim_lighting_mix_factor: i64,
    /// Parametric rim fresnel power.
    pub parametric_rim_fresnel_power_factor: i64,
    /// Parametric rim lift.
    pub parametric_rim_lift_factor: i64,
    /// UV scroll speed along x.
    pub uv_animation_scroll_x_speed_factor: i64,
    /// UV scroll speed along y.
    pub uv_animation_scroll_y_speed_factor: i64,
    /// UV rotation speed.
    pub uv_animation_rotation_speed_factor: i64,
}

impl MToonMaterial {
    /// The pipeline key.
    pub fn key(&self) -> (r: MToonMaterialKey)
        ensures
            r.cull_mode == self.cull_mode,
            r.depth_bias == self.depth_bias,
    {
        MToonMaterialKey { cull_mode: self.cull_mode, depth_bias: self.depth_bias }
    }

    /// Packs the material into its shader uniform. The caller says whether
    /// the bound normal map uses a two-component format.
    #[verifier::rlimit(100)]
    pub fn as_uniform(&self, two_component_normal_map: bool) -> (r: MToonMaterialUniform)
        ensures
            r.flags == mtoon_flags_spec(*self, two_component_normal_map),
            r.base_color == self.base_color,
            r.shade_color == self.shade_color,
            r.emissive == self.emissive,
            r.alpha_cutoff == (match self.alpha_mode {
                AlphaMode::Mask { cutoff } => cutoff,
                _ => 32768,
            }),
            r.shading_shift_factor == self.shading_shift_factor,
            r.shading_shift_scale == self.shading_shift_scale,
            r.shading_toony_factor == self.shading_toony_factor,
            r.gi_equalization_factor == self.gi_equalization_factor,
            r.matcap_factor == self.matcap_factor,
            r.parametric_rim_color_factor == self.parametric_rim_color_factor,
            r.rim_lighting_mix_factor == self.rim_lighting_mix_factor,
            r.parametric_rim_fresnel_power_factor == self.parametric_rim_fresnel_power_factor,
            r.parametric_rim_lift_factor == self.parametric_rim_lift_factor,
            r.uv_animation_scroll_x_speed_factor == self.uv_animation_scroll_x_speed_factor,
            r.uv_animation_scroll_y_speed_factor == self.uv_animation_scroll_y_speed_factor,
            r.uv_animation_rotation_speed_factor == self.uv_animation_rotation_speed_factor,
    {
        let mut flags: u32 = 0;
        if self.base_color_texture.is_some() {
            flags = flags + 1;
        }
        if self.emissive_texture.is_some() {
            flags = flags + 2;
        }
        if self.normal_map_texture.is_some() {
            flags = flags + 4;
        }
        if two_component_normal_map && self.normal_map_texture.is_some() {
            flags = flags + 8;
        }
        if self.shade_color_texture.is_some() {
            flags = flags + 16;
        }
        if self.shading_shift_texture.is_some() {
            flags = flags + 32;
        }
        if self.matcap_texture.is_some() {
            flags = flags + 64;
        }
        if self.rim_color_texture.is_some() {
            flags = flags + 128;
        }
        if self.uv_animation_mask_texture.is_some() {
            flags = flags + 256;
        }
        if self.double_sided {
            flags = flags + 512;
        }
        if self.fog_enabled {
            flags = flags + 1024;
        }
        let cutoff: i64;
        match self.alpha_mode {
            AlphaMode::Opaque => {
                cutoff = 32768;
            },
            AlphaMode::Mask { cutoff: c } => {
                cutoff = c;
                flags = flags + 0x2000_0000;
            },
            AlphaMode::Blend => {
                cutoff = 32768;
                flags = flags + 0x4000_0000;
            },
        }
        MToonMaterialUniform {
            flags,
            base_color: self.base_color,
            shade_color: self.shade_color,
            emissive: self.emissive,
            alpha_cutoff: cutoff,
            shading_shift_factor: self.shading_shift_factor,
            shading_shift_scale: self.shading_shift_scale,
            shading_toony_factor: self.shading_toony_factor,
            gi_equalization_factor: self.gi_equalization_factor,
            matcap_factor: self.matcap_factor,
            parametric_rim_color_factor: self.parametric_rim_color_factor,
            rim_lighting_mix_factor: self.rim_lighting_mix_factor,
            parametric_rim_fresnel_power_factor: self.parametric_rim_fresnel_power_factor,
            parametric_rim_lift_factor: self.parametric_rim_lift_factor,
            uv_animation_scroll_x_speed_factor: self.uv_animation_scroll_x_speed_factor,
            uv_animation_scroll_y_speed_factor: self.uv_animation_scroll_y_speed_factor,
            uv_animation_rotation_speed_factor: self.uv_animation_rotation_speed_factor,
        }
    }
}

} // verus!
