//! The accessor decoder: typed arrays out of buffer bytes.
//!
//! Given a buffer view, a component type and an element count, each decoder
//! produces a flat typed array. Scalars declared as IEEE-754 single
//! precision become Q47.16 fixed point; 8-bit indices widen to 16 bits.
//! Each decoder succeeds exactly when the declared types fit it and the
//! accessor's window lies inside its buffer's bytes, and then pins every
//! element to the bytes it was read from.

use vstd::prelude::*;

use crate::container::le32_at;
use crate::document::{AccessorDecl, BufferViewDecl, ElementKind, GltfDocument};
use crate::error::VrmError;
use crate::fixed::{abs_int, fx_of_f32_bits, fx_of_f32_bits_spec, FX_RAW_MAX};
use crate::geom::{v3_bounded, FxVec3, FxVec4};
use crate::mesh::IndexData;

verus! {

/// The little-endian 16-bit word at offset i.
pub open spec fn le16_at(s: Seq<u8>, i: int) -> int
    recommends
        0 <= i,
        i + 2 <= s.len(),
{
    s[i] + 256 * s[i + 1]
}

/// The fixed-point scalar denoted by the 32-bit float at offset i.
pub open spec fn fx_at(s: Seq<u8>, i: int) -> int {
    fx_of_f32_bits_spec(le32_at(s, i) as u32)
}

/// Reads the little-endian 16-bit word at offset i.
pub fn read_le16(s: &Vec<u8>, i: usize) -> (r: u16)
    requires
        i + 2 <= s@.len(),
    ensures
        r == le16_at(s@, i as int),
{
    let _len: usize = s.len();
    let b0: u16 = s[i] as u16;
    let b1: u16 = s[i + 1] as u16;
    b0 + 256 * b1
}

/// Reads the fixed-point scalar denoted by the 32-bit float at offset i.
pub fn read_fx(s: &Vec<u8>, i: usize) -> (r: i64)
    requires
        i + 4 <= s@.len(),
    ensures
        r == fx_at(s@, i as int),
        abs_int(r as int) <= FX_RAW_MAX,
{
    let w: u64 = crate::container::read_le32(s, i);
    fx_of_f32_bits(w as u32)
}

/// The buffer view an accessor reads through.
pub open spec fn window_view_spec(doc: GltfDocument, acc: AccessorDecl) -> BufferViewDecl
    recommends
        acc.buffer_view is Some,
        (acc.buffer_view->Some_0 as int) < doc.buffer_views@.len(),
{
    doc.buffer_views@[acc.buffer_view->Some_0 as int]
}

/// The element stride of an accessor's window.
pub open spec fn window_stride_spec(doc: GltfDocument, acc: AccessorDecl, elem_bytes: int) -> int {
    match window_view_spec(doc, acc).byte_stride {
        Option::Some(s) => s as int,
        Option::None => elem_bytes,
    }
}

/// The base byte offset of an accessor's window in its buffer.
pub open spec fn window_base_spec(doc: GltfDocument, acc: AccessorDecl) -> int {
    window_view_spec(doc, acc).byte_offset + acc.byte_offset
}

/// The buffer index of an accessor's window.
pub open spec fn window_buffer_spec(doc: GltfDocument, acc: AccessorDecl) -> int {
    window_view_spec(doc, acc).buffer as int
}

/// Whether an accessor's window is usable with the given element size:
/// the view exists, the buffer exists, the stride covers one element, and
/// all elements lie inside the buffer's bytes.
pub open spec fn accessor_window_ok(
    doc: GltfDocument,
    buffers: Seq<Vec<u8>>,
    acc: AccessorDecl,
    elem_bytes: int,
) -> bool {
    &&& acc.buffer_view is Some
    &&& (acc.buffer_view->Some_0 as int) < doc.buffer_views@.len()
    &&& window_buffer_spec(doc, acc) < buffers.len()
    &&& window_stride_spec(doc, acc, elem_bytes) >= elem_bytes
    &&& window_base_spec(doc, acc) + acc.count * window_stride_spec(doc, acc, elem_bytes) <= (
    buffers[window_buffer_spec(doc, acc)])@.len()
}

/// The window one accessor occupies: buffer index, base byte offset and
/// element stride, all checked against the buffer's actual bytes. Succeeds
/// exactly when the window is usable.
pub fn accessor_window(
    doc: &GltfDocument,
    buffers: &Vec<Vec<u8>>,
    acc: &AccessorDecl,
    elem_bytes: usize,
) -> (r: Result<(usize, usize, usize), VrmError>)
    requires
        elem_bytes >= 1,
    ensures
        (r is Ok) <==> accessor_window_ok(*doc, buffers@, *acc, elem_bytes as int),
        match r {
            Result::Ok((b, base, stride)) => {
                &&& b == window_buffer_spec(*doc, *acc)
                &&& base == window_base_spec(*doc, *acc)
                &&& stride == window_stride_spec(*doc, *acc, elem_bytes as int)
                &&& stride >= elem_bytes
                &&& base + acc.count * stride <= (buffers@[b as int])@.len()
            },
            Result::Err(e) => e == VrmError::AccessorOutOfBounds,
        },
{
    let view_idx: usize = match acc.buffer_view {
        Option::Some(v) => v,
        Option::None => {
            return Result::Err(VrmError::AccessorOutOfBounds);
        },
    };
    if view_idx >= doc.buffer_views.len() {
        return Result::Err(VrmError::AccessorOutOfBounds);
    }
    let view: &BufferViewDecl = &doc.buffer_views[view_idx];
    if view.buffer >= buffers.len() {
        return Result::Err(VrmError::AccessorOutOfBounds);
    }
    let buf_len: usize = buffers[view.buffer].len();
    let stride: usize = match view.byte_stride {
        Option::Some(s) => s,
        Option::None => elem_bytes,
    };
    if stride < elem_bytes {
        return Result::Err(VrmError::AccessorOutOfBounds);
    }
    let base: usize = match view.byte_offset.checked_add(acc.byte_offset) {
        Option::Some(b) => b,
        Option::None => {
            return Result::Err(VrmError::AccessorOutOfBounds);
        },
    };
    let span: usize = match acc.count.checked_mul(stride) {
        Option::Some(s) => s,
        Option::None => {
            proof {
                assert(acc.count * stride > usize::MAX);
            }
            return Result::Err(VrmError::AccessorOutOfBounds);
        },
    };
    let end: usize = match base.checked_add(span) {
        Option::Some(e) => e,
        Option::None => {
            return Result::Err(VrmError::AccessorOutOfBounds);
        },
    };
    if end > buf_len {
        return Result::Err(VrmError::AccessorOutOfBounds);
    }
    Result::Ok((view.buffer, base, stride))
}

/// An element's component offset stays inside the window.
proof fn lemma_window_elem(base: int, stride: int, elem_bytes: int, count: int, i: int, len: int)
    requires
        0 <= i < count,
        0 < elem_bytes <= stride,
        0 <= base,
        base + count * stride <= len,
    ensures
        base + i * stride + elem_bytes <= len,
        0 <= i * stride,
    decreases 0int,
{
    assert(i * stride + stride <= count * stride) by (nonlinear_arith)
        requires
            i < count,
            stride >= 0,
    ;
    assert(0 <= i * stride) by (nonlinear_arith)
        requires
            0 <= i,
            0 <= stride,
    ;
}

/// Decodes a VEC3 float accessor into fixed-point vectors: element i's
/// components are the three consecutive 32-bit floats at its strided
/// offset.
#[verifier::rlimit(100)]
pub fn decode_vec3(doc: &GltfDocument, buffers: &Vec<Vec<u8>>, acc: &AccessorDecl) -> (r: Result<
    Vec<FxVec3>,
    VrmError,
>)
    ensures
        (r is Ok) <==> (acc.component_type == 5126 && acc.kind == ElementKind::Vec3
            && accessor_window_ok(*doc, buffers@, *acc, 12)),
        match r {
            Result::Ok(out) => {
                let buf = (buffers@[window_buffer_spec(*doc, *acc)])@;
                let base = window_base_spec(*doc, *acc);
                let stride = window_stride_spec(*doc, *acc, 12);
                &&& out@.len() == acc.count
                &&& forall|i: int| 0 <= i < out@.len() ==> v3_bounded(#[trigger] out@[i])
                &&& forall|i: int|
                    0 <= i < out@.len() ==> #[trigger] out@[i] == (FxVec3 {
                        x: fx_at(buf, base + i * stride) as i64,
                        y: fx_at(buf, base + i * stride + 4) as i64,
                        z: fx_at(buf, base + i * stride + 8) as i64,
                    })
            },
            Result::Err(e) => e == VrmError::AccessorOutOfBounds,
        },
{
    if acc.component_type != 5126 {
        return Result::Err(VrmError::AccessorOutOfBounds);
    }
    match acc.kind {
        ElementKind::Vec3 => {},
        _ => {
            return Result::Err(VrmError::AccessorOutOfBounds);
        },
    }
    let (b, base, stride): (usize, usize, usize) = match accessor_window(doc, buffers, acc, 12) {
        Result::Ok(w) => w,
        Result::Err(e) => {
            return Result::Err(e);
        },
    };
    let buf: &Vec<u8> = &buffers[b];
    let buf_n: usize = buf.len();
    let mut out: Vec<FxVec3> = Vec::new();
    let mut i: usize = 0;
    while i < acc.count
        invariant
            i <= acc.count,
            out@.len() == i,
            buf_n == buf@.len(),
            (b as int) < buffers@.len(),
            buf == buffers@[b as int],
            stride >= 12,
            base + acc.count * stride <= buf@.len(),
            forall|k: int|
                0 <= k < i ==> #[trigger] out@[k] == (FxVec3 {
                    x: fx_at(buf@, base + k * stride) as i64,
                    y: fx_at(buf@, base + k * stride + 4) as i64,
                    z: fx_at(buf@, base + k * stride + 8) as i64,
                }),
            forall|k: int| 0 <= k < i ==> v3_bounded(#[trigger] out@[k]),
        decreases acc.count - i,
    {
        proof {
            lemma_window_elem(
                base as int,
                stride as int,
                12,
                acc.count as int,
                i as int,
                buf@.len() as int,
            );
        }
        let off: usize = base + i * stride;
        let x: i64 = read_fx(buf, off);
        let y: i64 = read_fx(buf, off + 4);
        let z: i64 = read_fx(buf, off + 8);
        out.push(FxVec3 { x, y, z });
        i = i + 1;
    }
    Result::Ok(out)
}

/// Decodes a VEC2 float accessor into fixed-point pairs.
#[verifier::rlimit(100)]
pub fn decode_vec2(doc: &GltfDocument, buffers: &Vec<Vec<u8>>, acc: &AccessorDecl) -> (r: Result<
    Vec<(i64, i64)>,
    VrmError,
>)
    ensures
        (r is Ok) <==> (acc.component_type == 5126 && acc.kind == ElementKind::Vec2
            && accessor_window_ok(*doc, buffers@, *acc, 8)),
        match r {
            Result::Ok(out) => {
                let buf = (buffers@[window_buffer_spec(*doc, *acc)])@;
                let base = window_base_spec(*doc, *acc);
                let stride = window_stride_spec(*doc, *acc, 8);
                &&& out@.len() == acc.count
                &&& forall|i: int|
                    0 <= i < out@.len() ==> #[trigger] out@[i] == (
                    fx_at(buf, base + i * stride) as i64,
                    fx_at(buf, base + i * stride + 4) as i64,
                    )
            },
            Result::Err(e) => e == VrmError::AccessorOutOfBounds,
        },
{
    if acc.component_type != 5126 {
        return Result::Err(VrmError::AccessorOutOfBounds);
    }
    match acc.kind {
        ElementKind::Vec2 => {},
        _ => {
            return Result::Err(VrmError::AccessorOutOfBounds);
        },
    }
    let (b, base, stride): (usize, usize, usize) = match accessor_window(doc, buffers, acc, 8) {
        Result::Ok(w) => w,
        Result::Err(e) => {
            return Result::Err(e);
        },
    };
    let buf: &Vec<u8> = &buffers[b];
    let buf_n: usize = buf.len();
    let mut out: Vec<(i64, i64)> = Vec::new();
    let mut i: usize = 0;
    while i < acc.count
        invariant
            i <= acc.count,
            out@.len() == i,
            buf_n == buf@.len(),
            buf == buffers@[b as int],
            (b as int) < buffers@.len(),
            stride >= 8,
            base + acc.count * stride <= buf@.len(),
            forall|k: int|
                0 <= k < i ==> #[trigger] out@[k] == (
                fx_at(buf@, base + k * stride) as i64,
                fx_at(buf@, base + k * stride + 4) as i64,
                ),
        decreases acc.count - i,
    {
        proof {
            lemma_window_elem(
                base as int,
                stride as int,
                8,
                acc.count as int,
                i as int,
                buf@.len() as int,
            );
        }
        let off: usize = base + i * stride;
        let u: i64 = read_fx(buf, off);
        let v: i64 = read_fx(buf, off + 4);
        out.push((u, v));
        i = i + 1;
    }
    Result::Ok(out)
}

/// Decodes a VEC4 float accessor into fixed-point 4-vectors.
#[verifier::rlimit(100)]
pub fn decode_vec4(doc: &GltfDocument, buffers: &Vec<Vec<u8>>, acc: &AccessorDecl) -> (r: Result<
    Vec<FxVec4>,
    VrmError,
>)
    ensures
        (r is Ok) <==> (acc.component_type == 5126 && acc.kind == ElementKind::Vec4
            && accessor_window_ok(*doc, buffers@, *acc, 16)),
        match r {
            Result::Ok(out) => {
                let buf = (buffers@[window_buffer_spec(*doc, *acc)])@;
                let base = window_base_spec(*doc, *acc);
                let stride = window_stride_spec(*doc, *acc, 16);
                &&& out@.len() == acc.count
                &&& forall|i: int|
                    0 <= i < out@.len() ==> #[trigger] out@[i] == (FxVec4 {
                        x: fx_at(buf, base + i * stride) as i64,
                        y: fx_at(buf, base + i * stride + 4) as i64,
                        z: fx_at(buf, base + i * stride + 8) as i64,
                        w: fx_at(buf, base + i * stride + 12) as i64,
                    })
            },
            Result::Err(e) => e == VrmError::AccessorOutOfBounds,
        },
{
    if acc.component_type != 5126 {
        return Result::Err(VrmError::AccessorOutOfBounds);
    }
    match acc.kind {
        ElementKind::Vec4 => {},
        _ => {
            return Result::Err(VrmError::AccessorOutOfBounds);
        },
    }
    let (b, base, stride): (usize, usize, usize) = match accessor_window(doc, buffers, acc, 16) {
        Result::Ok(w) => w,
        Result::Err(e) => {
            return Result::Err(e);
        },
    };
    let buf: &Vec<u8> = &buffers[b];
    let buf_n: usize = buf.len();
    let mut out: Vec<FxVec4> = Vec::new();
    let mut i: usize = 0;
    while i < acc.count
        invariant
            i <= acc.count,
            out@.len() == i,
            buf_n == buf@.len(),
            buf == buffers@[b as int],
            (b as int) < buffers@.len(),
            stride >= 16,
            base + acc.count * stride <= buf@.len(),
            forall|k: int|
                0 <= k < i ==> #[trigger] out@[k] == (FxVec4 {
                    x: fx_at(buf@, base + k * stride) as i64,
                    y: fx_at(buf@, base + k * stride + 4) as i64,
                    z: fx_at(buf@, base + k * stride + 8) as i64,
                    w: fx_at(buf@, base + k * stride + 12) as i64,
                }),
        decreases acc.count - i,
    {
        proof {
            lemma_window_elem(
                base as int,
                stride as int,
                16,
                acc.count as int,
                i as int,
                buf@.len() as int,
            );
        }
        let off: usize = base + i * stride;
        let x: i64 = read_fx(buf, off);
        let y: i64 = read_fx(buf, off + 4);
        let z: i64 = read_fx(buf, off + 8);
        let w: i64 = read_fx(buf, off + 12);
        out.push(FxVec4 { x, y, z, w });
        i = i + 1;
    }
    Result::Ok(out)
}

/// A 4x4 matrix as 16 fixed-point entries in column-major order.
#[derive(Clone, Debug, PartialEq, Eq)]
pub struct Mat4Fx {
    /// The entries.
    pub entries: Vec<i64>,
}

impl Mat4Fx {
    /// Sixteen entries.
    pub open spec fn wf(self) -> bool {
        self.entries@.len() == 16
    }
}

/// Decodes a MAT4 float accessor into 16-entry matrices (the inverse bind
/// matrices of a skin).
#[verifier::rlimit(100)]
pub fn decode_mat4(doc: &GltfDocument, buffers: &Vec<Vec<u8>>, acc: &AccessorDecl) -> (r: Result<
    Vec<Mat4Fx>,
    VrmError,
>)
    ensures
        (r is Ok) <==> (acc.component_type == 5126 && acc.kind == ElementKind::Mat4
            && accessor_window_ok(*doc, buffers@, *acc, 64)),
        match r {
            Result::Ok(out) => {
                let buf = (buffers@[window_buffer_spec(*doc, *acc)])@;
                let base = window_base_spec(*doc, *acc);
                let stride = window_stride_spec(*doc, *acc, 64);
                &&& out@.len() == acc.count
                &&& forall|i: int| 0 <= i < out@.len() ==> (#[trigger] out@[i]).wf()
                &&& forall|i: int, j: int|
                    0 <= i < out@.len() && 0 <= j < 16 ==> #[trigger] (out@[i].entries@)[j]
                        == fx_at(buf, base + i * stride + 4 * j) as i64
            },
            Result::Err(e) => e == VrmError::AccessorOutOfBounds,
        },
{
    if acc.component_type != 5126 {
        return Result::Err(VrmError::AccessorOutOfBounds);
    }
    match acc.kind {
        ElementKind::Mat4 => {},
        _ => {
            return Result::Err(VrmError::AccessorOutOfBounds);
        },
    }
    let (b, base, stride): (usize, usize, usize) = match accessor_window(doc, buffers, acc, 64) {
        Result::Ok(w) => w,
        Result::Err(e) => {
            return Result::Err(e);
        },
    };
    let buf: &Vec<u8> = &buffers[b];
    let buf_n: usize = buf.len();
    let mut out: Vec<Mat4Fx> = Vec::new();
    let mut i: usize = 0;
    while i < acc.count
        invariant
            i <= acc.count,
            out@.len() == i,
            buf_n == buf@.len(),
            buf == buffers@[b as int],
            (b as int) < buffers@.len(),
            stride >= 64,
            base + acc.count * stride <= buf@.len(),
            forall|k: int| 0 <= k < i ==> (#[trigger] out@[k]).wf(),
            forall|k: int, j: int|
                0 <= k < i && 0 <= j < 16 ==> #[trigger] (out@[k].entries@)[j] == fx_at(
                    buf@,
                    base + k * stride + 4 * j,
                ) as i64,
        decreases acc.count - i,
    {
        proof {
            lemma_window_elem(
                base as int,
                stride as int,
                64,
                acc.count as int,
                i as int,
                buf@.len() as int,
            );
        }
        let off: usize = base + i * stride;
        let mut entries: Vec<i64> = Vec::new();
        let mut j: usize = 0;
        while j < 16
            invariant
                j <= 16,
                entries@.len() == j,
                off + 64 <= buf@.len(),
                buf_n == buf@.len(),
                forall|q: int|
                    0 <= q < j ==> #[trigger] entries@[q] == fx_at(buf@, off + 4 * q) as i64,
            decreases 16 - j,
        {
            entries.push(read_fx(buf, off + 4 * j));
            j = j + 1;
        }
        out.push(Mat4Fx { entries });
        i = i + 1;
    }
    Result::Ok(out)
}

/// Decodes a VEC4 joint-index accessor: 8- or 16-bit components, read in
/// element order.
#[verifier::rlimit(100)]
pub fn decode_joints(doc: &GltfDocument, buffers: &Vec<Vec<u8>>, acc: &AccessorDecl) -> (r: Result<
    Vec<[u16; 4]>,
    VrmError,
>)
    ensures
        (r is Ok) <==> (acc.kind == ElementKind::Vec4 && ((acc.component_type == 5121
            && accessor_window_ok(*doc, buffers@, *acc, 4)) || (acc.component_type == 5123
            && accessor_window_ok(*doc, buffers@, *acc, 8)))),
        match r {
            Result::Ok(out) => {
                let buf = (buffers@[window_buffer_spec(*doc, *acc)])@;
                let base = window_base_spec(*doc, *acc);
                &&& out@.len() == acc.count
                &&& (acc.component_type == 5121 ==> {
                    let stride = window_stride_spec(*doc, *acc, 4);
                    forall|i: int, k: int|
                        0 <= i < out@.len() && 0 <= k < 4 ==> #[trigger] (out@[i])@[k] == buf[base
                            + i * stride + k] as u16
                })
                &&& (acc.component_type == 5123 ==> {
                    let stride = window_stride_spec(*doc, *acc, 8);
                    forall|i: int, k: int|
                        0 <= i < out@.len() && 0 <= k < 4 ==> #[trigger] (out@[i])@[k] == le16_at(
                            buf,
                            base + i * stride + 2 * k,
                        ) as u16
                })
            },
            Result::Err(e) => e == VrmError::AccessorOutOfBounds,
        },
{
    match acc.kind {
        ElementKind::Vec4 => {},
        _ => {
            return Result::Err(VrmError::AccessorOutOfBounds);
        },
    }
    if acc.component_type == 5121 {
        let (b, base, stride): (usize, usize, usize) = match accessor_window(doc, buffers, acc, 4) {
            Result::Ok(w) => w,
            Result::Err(e) => {
                return Result::Err(e);
            },
        };
        let buf: &Vec<u8> = &buffers[b];
        let buf_n: usize = buf.len();
        let mut out: Vec<[u16; 4]> = Vec::new();
        let mut i: usize = 0;
        while i < acc.count
            invariant
                i <= acc.count,
                out@.len() == i,
                buf_n == buf@.len(),
                buf == buffers@[b as int],
                (b as int) < buffers@.len(),
                stride >= 4,
                base + acc.count * stride <= buf@.len(),
                forall|k: int, q: int|
                    0 <= k < i && 0 <= q < 4 ==> #[trigger] (out@[k])@[q] == buf@[base + k * stride
                        + q] as u16,
            decreases acc.count - i,
        {
            proof {
                lemma_window_elem(
                    base as int,
                    stride as int,
                    4,
                    acc.count as int,
                    i as int,
                    buf@.len() as int,
                );
            }
            let off: usize = base + i * stride;
            let elem: [u16; 4] = [
                buf[off] as u16,
                buf[off + 1] as u16,
                buf[off + 2] as u16,
                buf[off + 3] as u16,
            ];
            proof {
                assert(elem@[0] == buf@[off as int] as u16);
                assert(elem@[1] == buf@[off + 1] as u16);
                assert(elem@[2] == buf@[off + 2] as u16);
                assert(elem@[3] == buf@[off + 3] as u16);
            }
            out.push(elem);
            i = i + 1;
        }
        Result::Ok(out)
    } else if acc.component_type == 5123 {
        let (b, base, stride): (usize, usize, usize) = match accessor_window(doc, buffers, acc, 8) {
            Result::Ok(w) => w,
            Result::Err(e) => {
                return Result::Err(e);
            },
        };
        let buf: &Vec<u8> = &buffers[b];
        let buf_n: usize = buf.len();
        let mut out: Vec<[u16; 4]> = Vec::new();
        let mut i: usize = 0;
        while i < acc.count
            invariant
                i <= acc.count,
                out@.len() == i,
                buf_n == buf@.len(),
                buf == buffers@[b as int],
                (b as int) < buffers@.len(),
                stride >= 8,
                base + acc.count * stride <= buf@.len(),
                forall|k: int, q: int|
                    0 <= k < i && 0 <= q < 4 ==> #[trigger] (out@[k])@[q] == le16_at(
                        buf@,
                        base + k * stride + 2 * q,
                    ) as u16,
            decreases acc.count - i,
        {
            proof {
                lemma_window_elem(
                    base as int,
                    stride as int,
                    8,
                    acc.count as int,
                    i as int,
                    buf@.len() as int,
                );
            }
            let off: usize = base + i * stride;
            let elem: [u16; 4] = [
                read_le16(buf, off),
                read_le16(buf, off + 2),
                read_le16(buf, off + 4),
                read_le16(buf, off + 6),
            ];
            proof {
                assert(elem@[0] == le16_at(buf@, off as int) as u16);
                assert(elem@[1] == le16_at(buf@, off + 2) as u16);
                assert(elem@[2] == le16_at(buf@, off + 4) as u16);
                assert(elem@[3] == le16_at(buf@, off + 6) as u16);
            }
            out.push(elem);
            i = i + 1;
        }
        Result::Ok(out)
    } else {
        Result::Err(VrmError::AccessorOutOfBounds)
    }
}

/// Whether a component type is one of the three index widths.
pub open spec fn index_width_ok(component_type: u32) -> bool {
    component_type == 5121 || component_type == 5123 || component_type == 5125
}

/// Decodes a scalar index accessor: 8-bit indices widen to 16 bits,
/// preserving values; 16- and 32-bit indices are read unchanged; a
/// component type outside the three index widths yields no index data.
#[verifier::rlimit(100)]
pub fn decode_indices(doc: &GltfDocument, buffers: &Vec<Vec<u8>>, acc: &AccessorDecl) -> (r:
    Result<Option<IndexData>, VrmError>)
    ensures
        match r {
            Result::Ok(Option::Some(ix)) => {
                let buf = (buffers@[window_buffer_spec(*doc, *acc)])@;
                let base = window_base_spec(*doc, *acc);
                &&& acc.kind == ElementKind::Scalar
                &&& index_width_ok(acc.component_type)
                &&& (acc.component_type == 5121 ==> accessor_window_ok(*doc, buffers@, *acc, 1))
                &&& (acc.component_type == 5123 ==> accessor_window_ok(*doc, buffers@, *acc, 2))
                &&& (acc.component_type == 5125 ==> accessor_window_ok(*doc, buffers@, *acc, 4))
                &&& ix.len_spec() == acc.count
                &&& (acc.component_type == 5121 ==> ix is U16 && (forall|k: int|
                    0 <= k < acc.count ==> #[trigger] ix.index_spec(k) == buf[base + k
                        * window_stride_spec(*doc, *acc, 1)] as u32))
                &&& (acc.component_type == 5123 ==> ix is U16 && (forall|k: int|
                    0 <= k < acc.count ==> #[trigger] ix.index_spec(k) == le16_at(
                        buf,
                        base + k * window_stride_spec(*doc, *acc, 2),
                    ) as u32))
                &&& (acc.component_type == 5125 ==> ix is U32 && (forall|k: int|
                    0 <= k < acc.count ==> #[trigger] ix.index_spec(k) == le32_at(
                        buf,
                        base + k * window_stride_spec(*doc, *acc, 4),
                    ) as u32))
            },
            Result::Ok(Option::None) => !(acc.kind == ElementKind::Scalar && index_width_ok(
                acc.component_type,
            )),
            Result::Err(e) => {
                &&& e == VrmError::AccessorOutOfBounds
                &&& acc.kind == ElementKind::Scalar
                &&& index_width_ok(acc.component_type)
                &&& (acc.component_type == 5121 ==> !accessor_window_ok(*doc, buffers@, *acc, 1))
                &&& (acc.component_type == 5123 ==> !accessor_window_ok(*doc, buffers@, *acc, 2))
                &&& (acc.component_type == 5125 ==> !accessor_window_ok(*doc, buffers@, *acc, 4))
            },
        },
{
    match acc.kind {
        ElementKind::Scalar => {},
        _ => {
            return Result::Ok(Option::None);
        },
    }
    if acc.component_type == 5121 {
        let (b, base, stride): (usize, usize, usize) = match accessor_window(doc, buffers, acc, 1) {
            Result::Ok(w) => w,
            Result::Err(e) => {
                return Result::Err(e);
            },
        };
        let buf: &Vec<u8> = &buffers[b];
        let buf_n: usize = buf.len();
        let mut out: Vec<u16> = Vec::new();
        let mut i: usize = 0;
        while i < acc.count
            invariant
                i <= acc.count,
                out@.len() == i,
                buf_n == buf@.len(),
                buf == buffers@[b as int],
                (b as int) < buffers@.len(),
                stride >= 1,
                base + acc.count * stride <= buf@.len(),
                forall|k: int|
                    0 <= k < i ==> #[trigger] out@[k] == buf@[base + k * stride] as u16,
            decreases acc.count - i,
        {
            proof {
                lemma_window_elem(
                    base as int,
                    stride as int,
                    1,
                    acc.count as int,
                    i as int,
                    buf@.len() as int,
                );
            }
            out.push(buf[base + i * stride] as u16);
            i = i + 1;
        }
        Result::Ok(Option::Some(IndexData::U16(out)))
    } else if acc.component_type == 5123 {
        let (b, base, stride): (usize, usize, usize) = match accessor_window(doc, buffers, acc, 2) {
            Result::Ok(w) => w,
            Result::Err(e) => {
                return Result::Err(e);
            },
        };
        let buf: &Vec<u8> = &buffers[b];
        let buf_n: usize = buf.len();
        let mut out: Vec<u16> = Vec::new();
        let mut i: usize = 0;
        while i < acc.count
            invariant
                i <= acc.count,
                out@.len() == i,
                buf_n == buf@.len(),
                buf == buffers@[b as int],
                (b as int) < buffers@.len(),
                stride >= 2,
                base + acc.count * stride <= buf@.len(),
                forall|k: int|
                    0 <= k < i ==> #[trigger] out@[k] == le16_at(buf@, base + k * stride) as u16,
            decreases acc.count - i,
        {
            proof {
                lemma_window_elem(
                    base as int,
                    stride as int,
                    2,
                    acc.count as int,
                    i as int,
                    buf@.len() as int,
                );
            }
            out.push(read_le16(buf, base + i * stride));
            i = i + 1;
        }
        Result::Ok(Option::Some(IndexData::U16(out)))
    } else if acc.component_type == 5125 {
        let (b, base, stride): (usize, usize, usize) = match accessor_window(doc, buffers, acc, 4) {
            Result::Ok(w) => w,
            Result::Err(e) => {
                return Result::Err(e);
            },
        };
        let buf: &Vec<u8> = &buffers[b];
        let buf_n: usize = buf.len();
        let mut out: Vec<u32> = Vec::new();
        let mut i: usize = 0;
        while i < acc.count
            invariant
                i <= acc.count,
                out@.len() == i,
                buf_n == buf@.len(),
                buf == buffers@[b as int],
                (b as int) < buffers@.len(),
                stride >= 4,
                base + acc.count * stride <= buf@.len(),
                forall|k: int|
                    0 <= k < i ==> #[trigger] out@[k] == le32_at(buf@, base + k * stride) as u32,
            decreases acc.count - i,
        {
            proof {
                lemma_window_elem(
                    base as int,
                    stride as int,
                    4,
                    acc.count as int,
                    i as int,
                    buf@.len() as int,
                );
            }
            let w: u64 = crate::container::read_le32(buf, base + i * stride);
            out.push(w as u32);
            i = i + 1;
        }
        Result::Ok(Option::Some(IndexData::U32(out)))
    } else {
        Result::Ok(Option::None)
    }
}

} // verus!
