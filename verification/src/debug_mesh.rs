//! A loader for the plain-text debug mesh format: vertex positions,
//! optional vertex normals, and triangular faces with indexed normals.

use vstd::prelude::*;

use crate::error::VrmError;
use crate::geom::FxVec3;
use crate::buffers::find_first;
use crate::json::parse_scalar_token;

verus! {

/// A parsed debug mesh: a triangle list with optional normals.
#[derive(Clone, Debug, PartialEq, Eq)]
pub struct DebugMesh {
    /// Vertex positions.
    pub positions: Vec<FxVec3>,
    /// Vertex normals (meaningful only when declared normals were seen).
    pub normals: Vec<FxVec3>,
    /// Whether the source declared any normals.
    pub has_normals: bool,
    /// Triangle indices.
    pub indices: Vec<u32>,
}

/// Splits text into whitespace-separated tokens, line structure kept by
/// the caller passing one line at a time.
fn split_ws_tokens(line: &Vec<u8>) -> (r: Vec<Vec<u8>>)
{
    let mut tokens: Vec<Vec<u8>> = Vec::new();
    let mut cur: Vec<u8> = Vec::new();
    let n: usize = line.len();
    let mut i: usize = 0;
    while i < n
        invariant
            i <= n,
            n == line@.len(),
        decreases n - i,
    {
        let b: u8 = line[i];
        if b == 0x20 || b == 0x09 || b == 0x0D {
            if cur.len() > 0 {
                tokens.push(cur);
                cur = Vec::new();
            }
        } else {
            cur.push(b);
        }
        i = i + 1;
    }
    if cur.len() > 0 {
        tokens.push(cur);
    }
    tokens
}

/// Parses the scalar in the token at position `idx`.
pub fn read_float(tokens: &Vec<Vec<u8>>, idx: usize) -> (r: Result<i64, VrmError>)
    ensures
        (idx as int) >= tokens@.len() ==> r is Err,
{
    if idx >= tokens.len() {
        return Result::Err(VrmError::MalformedJson);
    }
    match parse_scalar_token(&tokens[idx]) {
        Option::Some(v) => Result::Ok(v),
        Option::None => Result::Err(VrmError::MalformedJson),
    }
}

/// The decimal value of an all-digit token, or nothing when the token is
/// empty, holds a non-digit, or exceeds the index range.
pub open spec fn digit_token_spec(s: Seq<u8>) -> Option<u32>
    decreases s.len(),
{
    if s.len() == 0 {
        Option::None
    } else if s.len() == 1 {
        if 0x30 <= s[0] <= 0x39 {
            Option::Some((s[0] - 0x30) as u32)
        } else {
            Option::None
        }
    } else {
        match digit_token_spec(s.drop_last()) {
            Option::Some(v) => {
                let d = s.last();
                if 0x30 <= d <= 0x39 && v * 10 + (d - 0x30) <= u32::MAX {
                    Option::Some((v * 10 + (d - 0x30)) as u32)
                } else {
                    Option::None
                }
            },
            Option::None => Option::None,
        }
    }
}

/// Parses an all-digit token into an index.
pub fn parse_digit_token(s: &Vec<u8>) -> (r: Option<u32>)
    ensures
        r == digit_token_spec(s@),
{
    let n: usize = s.len();
    if n == 0 {
        return Option::None;
    }
    let mut acc: u32 = 0;
    let mut i: usize = 0;
    while i < n
        invariant
            i <= n,
            n == s@.len(),
            n > 0,
            i == 0 ==> acc == 0,
            i > 0 ==> digit_token_spec(s@.subrange(0, i as int)) == Option::Some(acc),
        decreases n - i,
    {
        let b: u8 = s[i];
        if !(0x30 <= b && b <= 0x39) {
            proof {
                lemma_digit_token_bad(s@, i as int);
            }
            return Option::None;
        }
        let d: u32 = (b - 0x30) as u32;
        if acc > (u32::MAX - d) / 10 {
            proof {
                assert(acc * 10 + d > u32::MAX) by (nonlinear_arith)
                    requires
                        acc > ((u32::MAX - d) / 10) as int,
                        d <= 9,
                ;
                lemma_digit_token_overflow(s@, i as int, acc as int);
            }
            return Option::None;
        }
        proof {
            assert(acc * 10 + d <= u32::MAX) by (nonlinear_arith)
                requires
                    acc <= ((u32::MAX - d) / 10) as int,
                    d <= 9,
            ;
            let sub = s@.subrange(0, (i + 1) as int);
            if i == 0 {
                assert(sub.len() == 1);
                assert(sub[0] == s@[0]);
            } else {
                assert(sub.drop_last() =~= s@.subrange(0, i as int));
                assert(sub.last() == s@[i as int]);
            }
        }
        acc = acc * 10 + d;
        i = i + 1;
    }
    proof {
        assert(s@.subrange(0, n as int) =~= s@);
    }
    Option::Some(acc)
}

/// A non-digit anywhere makes the whole token fail.
proof fn lemma_digit_token_bad(s: Seq<u8>, i: int)
    requires
        0 <= i < s.len(),
        !(0x30 <= s[i] <= 0x39),
    ensures
        digit_token_spec(s) is None,
    decreases s.len(),
{
    if s.len() > 0 {
        if i == s.len() - 1 {
        } else {
            lemma_digit_token_bad(s.drop_last(), i);
        }
    }
}

/// A prefix that overflows the index range makes the whole token fail.
proof fn lemma_digit_token_overflow(s: Seq<u8>, i: int, acc: int)
    requires
        0 <= i < s.len(),
        i == 0 ==> acc == 0,
        i > 0 ==> digit_token_spec(s.subrange(0, i)) == Option::Some(acc as u32),
        0 <= acc <= u32::MAX,
        0x30 <= s[i] <= 0x39,
        acc * 10 + (s[i] - 0x30) > u32::MAX,
    ensures
        digit_token_spec(s) is None,
    decreases s.len() - i,
{
    if i == 0 {
        // A zero prefix cannot overflow on its first digit.
        assert(false) by (nonlinear_arith)
            requires
                acc == 0,
                acc * 10 + (s[i] - 0x30) > u32::MAX,
                s[i] <= 0x39,
        ;
    } else if i == s.len() - 1 {
        assert(s.subrange(0, i) =~= s.drop_last());
    } else {
        assert(digit_token_spec(s.subrange(0, i + 1)) is None) by {
            assert(s.subrange(0, i + 1).drop_last() =~= s.subrange(0, i));
            assert(s.subrange(0, i + 1).last() == s[i]);
        }
        lemma_digit_token_none_extends(s, i + 1);
    }
}

/// Once a prefix fails, every longer prefix fails.
proof fn lemma_digit_token_none_extends(s: Seq<u8>, i: int)
    requires
        0 < i <= s.len(),
        digit_token_spec(s.subrange(0, i)) is None,
    ensures
        digit_token_spec(s) is None,
    decreases s.len() - i,
{
    if i == s.len() as int {
        assert(s.subrange(0, i) =~= s);
    } else {
        assert(digit_token_spec(s.subrange(0, i + 1)) is None) by {
            assert(s.subrange(0, i + 1).drop_last() =~= s.subrange(0, i));
        }
        lemma_digit_token_none_extends(s, i + 1);
    }
}

/// The three segments of a face corner: up to the first slash, between
/// the first and second, and between the second and third (or the end);
/// anything past a third slash is ignored.
pub open spec fn face_segment(token: Seq<u8>, which: int) -> Seq<u8> {
    let a = find_first(token, 0x2F);
    if a < 0 {
        if which == 0 {
            token
        } else {
            Seq::<u8>::empty()
        }
    } else {
        if which == 0 {
            token.subrange(0, a)
        } else {
            let rest = token.subrange(a + 1, token.len() as int);
            let b = find_first(rest, 0x2F);
            if b < 0 {
                if which == 1 {
                    rest
                } else {
                    Seq::<u8>::empty()
                }
            } else {
                if which == 1 {
                    rest.subrange(0, b)
                } else {
                    let tail = rest.subrange(b + 1, rest.len() as int);
                    let c = find_first(tail, 0x2F);
                    if c < 0 {
                        tail
                    } else {
                        tail.subrange(0, c)
                    }
                }
            }
        }
    }
}

/// Parses one face corner "p", "p/u" or "p/u/n": the position index must
/// parse as digits; texture and normal indices are kept when their
/// segments parse; segments past the third slash are ignored.
pub fn read_face(token: &Vec<u8>) -> (r: Result<(u32, Option<u32>, Option<u32>), VrmError>)
    ensures
        (r is Ok) <==> digit_token_spec(face_segment(token@, 0)) is Some,
        match r {
            Result::Ok((p, uv, nm)) => {
                &&& Option::Some(p) == digit_token_spec(face_segment(token@, 0))
                &&& uv == digit_token_spec(face_segment(token@, 1))
                &&& nm == digit_token_spec(face_segment(token@, 2))
            },
            Result::Err(e) => e == VrmError::MalformedJson,
        },
{
    let (first, rest1): (Vec<u8>, Vec<u8>) = split_first_slash(token.as_slice());
    let (second, rest2): (Vec<u8>, Vec<u8>) = split_first_slash(rest1.as_slice());
    let (third, _rest3): (Vec<u8>, Vec<u8>) = split_first_slash(rest2.as_slice());
    proof {
        assert(first@ == face_segment(token@, 0));
        assert(second@ == face_segment(token@, 1));
        assert(third@ == face_segment(token@, 2));
    }
    let position_index: u32 = match parse_digit_token(&first) {
        Option::Some(p) => p,
        Option::None => {
            return Result::Err(VrmError::MalformedJson);
        },
    };
    let uv_index: Option<u32> = parse_digit_token(&second);
    let normal_index: Option<u32> = parse_digit_token(&third);
    Result::Ok((position_index, uv_index, normal_index))
}

/// Splits off everything before the first slash; without one the whole
/// input is the head and the tail is empty.
fn split_first_slash(s: &[u8]) -> (r: (Vec<u8>, Vec<u8>))
    ensures
        (r.0)@ == (if find_first(s@, 0x2F) < 0 {
            s@
        } else {
            s@.subrange(0, find_first(s@, 0x2F))
        }),
        (r.1)@ == (if find_first(s@, 0x2F) < 0 {
            Seq::<u8>::empty()
        } else {
            s@.subrange(find_first(s@, 0x2F) + 1, s@.len() as int)
        }),
{
    match crate::buffers::split_once(s, 0x2F) {
        Option::Some((a, b)) => {
            proof {
                let i = choose|i: int|
                    #[trigger] crate::buffers::found_at(s@, 0x2F, i) && a@ == s@.subrange(0, i)
                        && b@ == s@.subrange(i + 1, s@.len() as int);
                crate::buffers::lemma_find_first_found(s@, 0x2F, i);
            }
            (a, b)
        },
        Option::None => {
            proof {
                crate::buffers::lemma_find_first_none(s@, 0x2F);
            }
            let copied = crate::container::copy_range_slice(s);
            (copied, Vec::new())
        },
    }
}

/// The text-mesh loader.
#[derive(Clone, Copy, Debug, PartialEq, Eq, Structural, Default)]
pub struct DebugMeshLoader;

impl DebugMeshLoader {
    /// The file extension this loader handles.
    pub fn extensions(&self) -> (r: &'static str)
    {
        "dobj"
    }

    /// Parses the text format: "v x y z" vertices, "vn x y z" normals,
    /// "f a/_/an b/_/bn c/_/cn" triangles (one-based indices). Every
    /// vertex starts with the unit z normal; face corners with a normal
    /// index rebind that vertex's normal when any normals were declared.
    pub fn load(&self, bytes: &Vec<u8>) -> (r: Result<DebugMesh, VrmError>)
        ensures
            match r {
                Result::Ok(m) => m.normals@.len() == m.positions@.len() && m.indices@.len() % 3
                    == 0,
                Result::Err(_) => true,
            },
    {
        let mut positions: Vec<FxVec3> = Vec::new();
        let mut normals: Vec<FxVec3> = Vec::new();
        let mut raw_normals: Vec<FxVec3> = Vec::new();
        let mut indices: Vec<u32> = Vec::new();
        let n: usize = bytes.len();
        let mut start: usize = 0;
        while start < n
            invariant
                start <= n,
                n == bytes@.len(),
                normals@.len() == positions@.len(),
                indices@.len() % 3 == 0,
            decreases n - start,
        {
            let mut end: usize = start;
            while end < n && bytes[end] != 0x0A
                invariant
                    start <= end <= n,
                    n == bytes@.len(),
                decreases n - end,
            {
                end = end + 1;
            }
            let line: Vec<u8> = crate::container::copy_range(bytes, start, end);
            let tokens = split_ws_tokens(&line);
            if tokens.len() > 0 {
                let cmd: &Vec<u8> = &tokens[0];
                if crate::document::bytes_eq_str(cmd.as_slice(), "v") {
                    let x: i64 = match read_float(&tokens, 1) {
                        Result::Ok(v) => v,
                        Result::Err(e) => {
                            return Result::Err(e);
                        },
                    };
                    let y: i64 = match read_float(&tokens, 2) {
                        Result::Ok(v) => v,
                        Result::Err(e) => {
                            return Result::Err(e);
                        },
                    };
                    let z: i64 = match read_float(&tokens, 3) {
                        Result::Ok(v) => v,
                        Result::Err(e) => {
                            return Result::Err(e);
                        },
                    };
                    positions.push(FxVec3 { x, y, z });
                    normals.push(FxVec3 { x: 0, y: 0, z: crate::fixed::FX_ONE });
                } else if crate::document::bytes_eq_str(cmd.as_slice(), "vn") {
                    let x: i64 = match read_float(&tokens, 1) {
                        Result::Ok(v) => v,
                        Result::Err(e) => {
                            return Result::Err(e);
                        },
                    };
                    let y: i64 = match read_float(&tokens, 2) {
                        Result::Ok(v) => v,
                        Result::Err(e) => {
                            return Result::Err(e);
                        },
                    };
                    let z: i64 = match read_float(&tokens, 3) {
                        Result::Ok(v) => v,
                        Result::Err(e) => {
                            return Result::Err(e);
                        },
                    };
                    raw_normals.push(FxVec3 { x, y, z });
                } else if crate::document::bytes_eq_str(cmd.as_slice(), "f") {
                    if tokens.len() < 4 {
                        return Result::Err(VrmError::MalformedJson);
                    }
                    let (a, _au, an) = match read_face(&tokens[1]) {
                        Result::Ok(f) => f,
                        Result::Err(e) => {
                            return Result::Err(e);
                        },
                    };
                    let (b, _bu, bn) = match read_face(&tokens[2]) {
                        Result::Ok(f) => f,
                        Result::Err(e) => {
                            return Result::Err(e);
                        },
                    };
                    let (c, _cu, cn) = match read_face(&tokens[3]) {
                        Result::Ok(f) => f,
                        Result::Err(e) => {
                            return Result::Err(e);
                        },
                    };
                    if a == 0 || b == 0 || c == 0 {
                        return Result::Err(VrmError::MalformedJson);
                    }
                    if raw_normals.len() > 0 {
                        bind_normal(&mut normals, &raw_normals, a, an);
                        bind_normal(&mut normals, &raw_normals, b, bn);
                        bind_normal(&mut normals, &raw_normals, c, cn);
                    }
                    indices.push(a - 1);
                    indices.push(b - 1);
                    indices.push(c - 1);
                } else {
                    // Unknown commands are skipped.
                }
            }
            start = if end < n {
                end + 1
            } else {
                n
            };
        }
        let has_normals: bool = raw_normals.len() > 0;
        Result::Ok(DebugMesh { positions, normals, has_normals, indices })
    }
}

/// Rebinds one vertex's normal from the declared normal list, when both
/// one-based indices are in range.
fn bind_normal(normals: &mut Vec<FxVec3>, raw_normals: &Vec<FxVec3>, vertex: u32, normal: Option<
    u32,
>)
    ensures
        final(normals)@.len() == old(normals)@.len(),
{
    match normal {
        Option::Some(nn) => {
            if vertex >= 1 && nn >= 1 {
                let vi: usize = (vertex - 1) as usize;
                let ni: usize = (nn - 1) as usize;
                if vi < normals.len() && ni < raw_normals.len() {
                    normals.set(vi, raw_normals[ni]);
                }
            }
        },
        Option::None => {},
    }
}

} // verus!
