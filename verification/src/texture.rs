//! The texture loader's verifiable half: source selection and sampler
//! descriptors.
//!
//! Image pixel decoding itself is the renderer collaborator's operation;
//! the library selects each texture's encoded bytes (buffer view, data URI
//! or external path), tags it sRGB or linear, and maps the declared sampler
//! to wrap and filter modes.

use vstd::prelude::*;

use crate::buffers::{
    base64_decode_of, data_uri_is_base64, data_uri_mime, data_uri_payload, is_data_uri,
    percent_decode_bytes, percent_decode_spec, DataUri,
};
use crate::container::copy_range;
use crate::document::{GltfDocument, SamplerDecl};
use crate::error::VrmError;

verus! {

/// How texture coordinates wrap outside [0, 1].
#[derive(Clone, Copy, Debug, PartialEq, Eq, Structural)]
pub enum ImageAddressMode {
    /// Clamp to the edge texel.
    ClampToEdge,
    /// Repeat the image.
    Repeat,
    /// Repeat with mirroring.
    MirrorRepeat,
}

/// A sampling filter.
#[derive(Clone, Copy, Debug, PartialEq, Eq, Structural)]
pub enum ImageFilterMode {
    /// Nearest texel.
    Nearest,
    /// Linear interpolation.
    Linear,
}

/// A sampler descriptor: wrap modes per axis, filters per role.
#[derive(Clone, Copy, Debug, PartialEq, Eq, Structural)]
pub struct ImageSamplerDescriptor {
    /// Wrap mode along u.
    pub address_mode_u: ImageAddressMode,
    /// Wrap mode along v.
    pub address_mode_v: ImageAddressMode,
    /// Magnification filter.
    pub mag_filter: ImageFilterMode,
    /// Minification filter.
    pub min_filter: ImageFilterMode,
    /// Mip-level filter.
    pub mipmap_filter: ImageFilterMode,
}

/// The wrap mode a declared code denotes: 33071 clamps, 33648 mirrors,
/// everything else (including the default 10497) repeats.
pub open spec fn wrap_mode_spec(code: int) -> ImageAddressMode {
    if code == 33071 {
        ImageAddressMode::ClampToEdge
    } else if code == 33648 {
        ImageAddressMode::MirrorRepeat
    } else {
        ImageAddressMode::Repeat
    }
}

/// Maps a declared wrap code: 33071 clamps, 33648 mirrors, everything else
/// (including the default 10497) repeats.
pub fn texture_address_mode(code: i64) -> (r: ImageAddressMode)
    ensures
        r == wrap_mode_spec(code as int),
{
    if code == 33071 {
        ImageAddressMode::ClampToEdge
    } else if code == 33648 {
        ImageAddressMode::MirrorRepeat
    } else {
        ImageAddressMode::Repeat
    }
}

/// The magnification filter a declared code denotes (nearest when absent).
pub open spec fn mag_filter_spec(code: Option<i64>) -> ImageFilterMode {
    match code {
        Option::Some(9729) => ImageFilterMode::Linear,
        _ => ImageFilterMode::Nearest,
    }
}

/// The minification filter a declared code denotes (nearest when absent).
pub open spec fn min_filter_spec(code: Option<i64>) -> ImageFilterMode {
    match code {
        Option::Some(9729) => ImageFilterMode::Linear,
        Option::Some(9985) => ImageFilterMode::Linear,
        Option::Some(9987) => ImageFilterMode::Linear,
        _ => ImageFilterMode::Nearest,
    }
}

/// The mip filter a declared minification code denotes (nearest when
/// absent).
pub open spec fn mipmap_filter_spec(code: Option<i64>) -> ImageFilterMode {
    match code {
        Option::Some(9986) => ImageFilterMode::Linear,
        Option::Some(9987) => ImageFilterMode::Linear,
        _ => ImageFilterMode::Nearest,
    }
}

/// The default sampler declaration: no filters, repeat on both axes.
pub open spec fn default_sampler_decl() -> SamplerDecl {
    SamplerDecl { mag_filter: Option::None, min_filter: Option::None, wrap_s: 10497, wrap_t: 10497 }
}

/// The sampler declaration a texture's reference resolves to: the declared
/// one when the index is in range, the defaults otherwise.
pub open spec fn sampler_decl_of(doc: GltfDocument, sampler: Option<usize>) -> SamplerDecl {
    match sampler {
        Option::Some(s) => if (s as int) < doc.samplers@.len() {
            doc.samplers@[s as int]
        } else {
            default_sampler_decl()
        },
        Option::None => default_sampler_decl(),
    }
}

/// The full descriptor a sampler declaration denotes: wrap modes per axis
/// and the three filters.
pub open spec fn sampler_spec(decl: SamplerDecl) -> ImageSamplerDescriptor {
    ImageSamplerDescriptor {
        address_mode_u: wrap_mode_spec(decl.wrap_s as int),
        address_mode_v: wrap_mode_spec(decl.wrap_t as int),
        mag_filter: mag_filter_spec(decl.mag_filter),
        min_filter: min_filter_spec(decl.min_filter),
        mipmap_filter: mipmap_filter_spec(decl.min_filter),
    }
}

/// Builds the sampler descriptor of one texture from its declared sampler
/// (or the defaults when it has none).
pub fn texture_sampler(doc: &GltfDocument, sampler: Option<usize>) -> (r: ImageSamplerDescriptor)
    ensures
        r == sampler_spec(sampler_decl_of(*doc, sampler)),
{
    let decl: SamplerDecl = match sampler {
        Option::Some(s) => {
            if s < doc.samplers.len() {
                doc.samplers[s]
            } else {
                SamplerDecl {
                    mag_filter: Option::None,
                    min_filter: Option::None,
                    wrap_s: 10497,
                    wrap_t: 10497,
                }
            }
        },
        Option::None => SamplerDecl {
            mag_filter: Option::None,
            min_filter: Option::None,
            wrap_s: 10497,
            wrap_t: 10497,
        },
    };
    let mag: ImageFilterMode = match decl.mag_filter {
        Option::Some(code) => {
            if code == 9729 {
                ImageFilterMode::Linear
            } else {
                ImageFilterMode::Nearest
            }
        },
        Option::None => ImageFilterMode::Nearest,
    };
    let minf: ImageFilterMode = match decl.min_filter {
        Option::Some(code) => {
            if code == 9729 || code == 9985 || code == 9987 {
                ImageFilterMode::Linear
            } else {
                ImageFilterMode::Nearest
            }
        },
        Option::None => ImageFilterMode::Nearest,
    };
    let mip: ImageFilterMode = match decl.min_filter {
        Option::Some(code) => {
            if code == 9986 || code == 9987 {
                ImageFilterMode::Linear
            } else {
                ImageFilterMode::Nearest
            }
        },
        Option::None => ImageFilterMode::Nearest,
    };
    ImageSamplerDescriptor {
        address_mode_u: texture_address_mode(decl.wrap_s),
        address_mode_v: texture_address_mode(decl.wrap_t),
        mag_filter: mag,
        min_filter: minf,
        mipmap_filter: mip,
    }
}

/// The encoded source of one texture.
#[derive(Clone, Debug, PartialEq, Eq)]
pub enum TextureSource {
    /// Encoded bytes carried by the container.
    Bytes(Vec<u8>),
    /// An external file, by percent-decoded relative path.
    External(Vec<u8>),
}

/// One texture, ready for the image-decode collaborator.
#[derive(Clone, Debug, PartialEq, Eq)]
pub struct EncodedTexture {
    /// The encoded bytes or the path to fetch them from.
    pub source: TextureSource,
    /// The declared mime type, when one was given.
    pub mime_type: Option<Vec<u8>>,
    /// Whether the pixels are sRGB-encoded (false for linear data maps).
    pub srgb: bool,
    /// How the texture is sampled.
    pub sampler: ImageSamplerDescriptor,
}

/// The view of an optional byte vector.
pub open spec fn opt_bytes_view(o: Option<Vec<u8>>) -> Option<Seq<u8>> {
    match o {
        Option::Some(b) => Option::Some(b@),
        Option::None => Option::None,
    }
}

/// Whether one texture's source can be selected: a declared image whose
/// buffer view lies inside its buffer, or a URI whose base64 payload (for
/// a base64 data URI) decodes.
pub open spec fn texture_ok_spec(doc: GltfDocument, buffers: Seq<Vec<u8>>, t: int) -> bool {
    &&& 0 <= t < doc.textures@.len()
    &&& doc.textures@[t].source is Some
    &&& (doc.textures@[t].source->Some_0 as int) < doc.images@.len()
    &&& {
        let img = doc.images@[doc.textures@[t].source->Some_0 as int];
        match img.buffer_view {
            Option::Some(v) => {
                &&& (v as int) < doc.buffer_views@.len()
                &&& (doc.buffer_views@[v as int].buffer as int) < buffers.len()
                &&& doc.buffer_views@[v as int].byte_offset + doc.buffer_views@[
                    v as int
                ].byte_length <= (buffers[doc.buffer_views@[v as int].buffer as int])@.len()
            },
            Option::None => {
                &&& img.uri is Some
                &&& (is_data_uri(percent_decode_spec(img.uri->Some_0@)) && data_uri_is_base64(
                    percent_decode_spec(img.uri->Some_0@),
                ) ==> base64_decode_of(
                    data_uri_payload(percent_decode_spec(img.uri->Some_0@)),
                ) is Some)
            },
        }
    }
}

/// What a selected texture must hold, relative to its declarations.
pub open spec fn texture_selected_ok(
    doc: GltfDocument,
    buffers: Seq<Vec<u8>>,
    t: int,
    linear: Seq<bool>,
    tex: EncodedTexture,
) -> bool {
    let img = doc.images@[doc.textures@[t].source->Some_0 as int];
    &&& tex.srgb == !linear[t]
    &&& tex.sampler == sampler_spec(sampler_decl_of(doc, doc.textures@[t].sampler))
    &&& match img.buffer_view {
        Option::Some(v) => {
            let view = doc.buffer_views@[v as int];
            &&& (match tex.source {
                TextureSource::Bytes(b) => b@ == (buffers[view.buffer as int])@.subrange(
                    view.byte_offset as int,
                    view.byte_offset + view.byte_length,
                ),
                TextureSource::External(_) => false,
            })
            &&& opt_bytes_view(tex.mime_type) == opt_bytes_view(img.mime_type)
        },
        Option::None => {
            let dec = percent_decode_spec(img.uri->Some_0@);
            if is_data_uri(dec) {
                &&& (match tex.source {
                    TextureSource::Bytes(b) => b@ == (if data_uri_is_base64(dec) {
                        base64_decode_of(data_uri_payload(dec))->Some_0
                    } else {
                        data_uri_payload(dec)
                    }),
                    TextureSource::External(_) => false,
                })
                &&& opt_bytes_view(tex.mime_type) == (match img.mime_type {
                    Option::Some(m) => Option::Some(m@),
                    Option::None => Option::Some(data_uri_mime(dec)),
                })
            } else {
                &&& (match tex.source {
                    TextureSource::External(p) => p@ == dec,
                    TextureSource::Bytes(_) => false,
                })
                &&& opt_bytes_view(tex.mime_type) == opt_bytes_view(img.mime_type)
            }
        },
    }
}

/// Selects the encoded source of one texture: a buffer-view slice, a data
/// URI payload, or an external path. The texture is tagged linear exactly
/// when some material uses it as a data map; a mime type the image
/// declares takes priority over one derived from a data URI. Succeeds
/// exactly when the texture's source can be selected.
#[verifier::rlimit(100)]
pub fn load_texture(
    doc: &GltfDocument,
    buffers: &Vec<Vec<u8>>,
    texture_index: usize,
    linear: &Vec<bool>,
) -> (r: Result<EncodedTexture, VrmError>)
    requires
        linear@.len() == doc.textures@.len(),
    ensures
        (r is Ok) <==> texture_ok_spec(*doc, buffers@, texture_index as int),
        match r {
            Result::Ok(t) => texture_selected_ok(
                *doc,
                buffers@,
                texture_index as int,
                linear@,
                t,
            ),
            Result::Err(e) => e == VrmError::AccessorOutOfBounds || e == VrmError::Base64Decode,
        },
{
    if texture_index >= doc.textures.len() {
        return Result::Err(VrmError::AccessorOutOfBounds);
    }
    let decl = doc.textures[texture_index];
    let srgb: bool = !linear[texture_index];
    let sampler = texture_sampler(doc, decl.sampler);
    let image_index: usize = match decl.source {
        Option::Some(s) => s,
        Option::None => {
            return Result::Err(VrmError::AccessorOutOfBounds);
        },
    };
    if image_index >= doc.images.len() {
        return Result::Err(VrmError::AccessorOutOfBounds);
    }
    let image = &doc.images[image_index];
    let mime_type: Option<Vec<u8>> = match &image.mime_type {
        Option::Some(m) => {
            let copied = copy_range(m, 0, m.len());
            proof {
                assert(m@.subrange(0, m@.len() as int) =~= m@);
            }
            Option::Some(copied)
        },
        Option::None => Option::None,
    };
    match image.buffer_view {
        Option::Some(view_idx) => {
            if view_idx >= doc.buffer_views.len() {
                return Result::Err(VrmError::AccessorOutOfBounds);
            }
            let view = doc.buffer_views[view_idx];
            if view.buffer >= buffers.len() {
                return Result::Err(VrmError::AccessorOutOfBounds);
            }
            let buf: &Vec<u8> = &buffers[view.buffer];
            let buf_n: usize = buf.len();
            let end: usize = match view.byte_offset.checked_add(view.byte_length) {
                Option::Some(e) => e,
                Option::None => {
                    return Result::Err(VrmError::AccessorOutOfBounds);
                },
            };
            if end > buf_n {
                return Result::Err(VrmError::AccessorOutOfBounds);
            }
            let bytes = copy_range(buf, view.byte_offset, end);
            Result::Ok(
                EncodedTexture { source: TextureSource::Bytes(bytes), mime_type, srgb, sampler },
            )
        },
        Option::None => {
            let uri: &Vec<u8> = match &image.uri {
                Option::Some(u) => u,
                Option::None => {
                    return Result::Err(VrmError::AccessorOutOfBounds);
                },
            };
            let decoded = percent_decode_bytes(uri.as_slice());
            match DataUri::parse(decoded.as_slice()) {
                Result::Ok(d) => {
                    let mime: Option<Vec<u8>> = match mime_type {
                        Option::Some(m) => Option::Some(m),
                        Option::None => {
                            let copied = copy_range(&d.mime_type, 0, d.mime_type.len());
                            proof {
                                assert(d.mime_type@.subrange(0, d.mime_type@.len() as int)
                                    =~= d.mime_type@);
                            }
                            Option::Some(copied)
                        },
                    };
                    match d.decode() {
                        Result::Ok(bytes) => Result::Ok(
                            EncodedTexture {
                                source: TextureSource::Bytes(bytes),
                                mime_type: mime,
                                srgb,
                                sampler,
                            },
                        ),
                        Result::Err(e) => Result::Err(e),
                    }
                },
                Result::Err(_) => Result::Ok(
                    EncodedTexture {
                        source: TextureSource::External(decoded),
                        mime_type,
                        srgb,
                        sampler,
                    },
                ),
            }
        },
    }
}

} // verus!
