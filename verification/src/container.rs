//! The binary container reader and writer.
//!
//! A container is either binary — a 12-byte header (magic, version, total
//! length) followed by a JSON chunk and an optional binary chunk, each with
//! an 8-byte chunk header — or bare JSON bytes. The reader is strict: in
//! binary mode the declared total length must equal the bytes consumed, so
//! the chunk-length bookkeeping of every accepted container is exact.

use vstd::prelude::*;

use crate::error::VrmError;

verus! {

/// First header word: the ASCII magic token.
pub const MAGIC_0: u8 = 0x67;

/// Second magic byte.
pub const MAGIC_1: u8 = 0x6C;

/// Third magic byte.
pub const MAGIC_2: u8 = 0x54;

/// Fourth magic byte.
pub const MAGIC_3: u8 = 0x46;

/// Chunk type word of the JSON chunk ("JSON", little endian).
pub const CHUNK_JSON: u64 = 0x4E4F534A;

/// Chunk type word of the binary chunk ("BIN\0", little endian).
pub const CHUNK_BIN: u64 = 0x004E4942;

/// A split container: the JSON document plus the optional binary blob.
#[derive(Clone, Debug, PartialEq, Eq)]
pub struct Container {
    /// True when the input began with the magic token (binary mode).
    pub binary: bool,
    /// Header version word (0 in bare-JSON mode).
    pub version: u64,
    /// Header total-length word (0 in bare-JSON mode).
    pub declared_length: u64,
    /// The JSON document bytes.
    pub json: Vec<u8>,
    /// The binary chunk, when one is present.
    pub bin: Option<Vec<u8>>,
}

/// Mathematical image of a container.
pub ghost struct ContainerView {
    /// Binary mode flag.
    pub binary: bool,
    /// Header version word.
    pub version: int,
    /// Header total-length word.
    pub declared_length: int,
    /// JSON document bytes.
    pub json: Seq<u8>,
    /// Optional binary chunk bytes.
    pub bin: Option<Seq<u8>>,
}

impl View for Container {
    type V = ContainerView;

    open spec fn view(&self) -> ContainerView {
        ContainerView {
            binary: self.binary,
            version: self.version as int,
            declared_length: self.declared_length as int,
            json: self.json@,
            bin: match self.bin {
                Option::Some(b) => Option::Some(b@),
                Option::None => Option::None,
            },
        }
    }
}

impl ContainerView {
    /// Size of the header plus chunk headers that a serialization carries.
    pub open spec fn header_size(self) -> int {
        if self.bin is Some {
            28
        } else {
            20
        }
    }

    /// A container that the writer can serialize and the reader accepts back.
    pub open spec fn wf(self) -> bool {
        if self.binary {
            &&& 0 <= self.version < 0x1_0000_0000
            &&& self.json.len() + self.header_size() + (match self.bin {
                Option::Some(b) => b.len() as int,
                Option::None => 0,
            }) < 0x1_0000_0000
            &&& self.declared_length == self.json.len() + self.header_size() + (match self.bin {
                Option::Some(b) => b.len() as int,
                Option::None => 0,
            })
        } else {
            &&& self.version == 0
            &&& self.declared_length == 0
            &&& self.bin is None
        }
    }
}

/// The little-endian 32-bit word at offset i.
pub open spec fn le32_at(s: Seq<u8>, i: int) -> int
    recommends
        0 <= i,
        i + 4 <= s.len(),
{
    s[i] + 256 * s[i + 1] + 65536 * s[i + 2] + 16777216 * s[i + 3]
}

/// The four little-endian bytes of a 32-bit word.
pub open spec fn le32_bytes(v: int) -> Seq<u8> {
    seq![
        (v % 256) as u8,
        ((v / 256) % 256) as u8,
        ((v / 65536) % 256) as u8,
        ((v / 16777216) % 256) as u8,
    ]
}

/// Reading back the four little-endian bytes of a word in range yields it.
pub proof fn lemma_le32_round_trip(v: int)
    requires
        0 <= v < 0x1_0000_0000,
    ensures
        le32_at(le32_bytes(v), 0) == v,
{
    let s = le32_bytes(v);
    assert(s[0] == (v % 256) as u8);
    assert(v == 16777216 * (v / 16777216) + (v % 16777216)) by (nonlinear_arith)
        requires
            0 <= v,
    ;
    assert(v % 16777216 == 65536 * ((v % 16777216) / 65536) + (v % 16777216) % 65536)
        by (nonlinear_arith)
        requires
            0 <= v,
    ;
    assert((v % 16777216) / 65536 == (v / 65536) % 256) by (nonlinear_arith)
        requires
            0 <= v < 0x1_0000_0000,
    ;
    assert((v % 16777216) % 65536 == v % 65536) by (nonlinear_arith)
        requires
            0 <= v,
    ;
    assert(v % 65536 == 256 * ((v % 65536) / 256) + (v % 65536) % 256) by (nonlinear_arith)
        requires
            0 <= v,
    ;
    assert((v % 65536) / 256 == (v / 256) % 256) by (nonlinear_arith)
        requires
            0 <= v,
    ;
    assert((v % 65536) % 256 == v % 256) by (nonlinear_arith)
        requires
            0 <= v,
    ;
    assert(v / 16777216 < 256);
    assert(v / 16777216 == (v / 16777216) % 256) by (nonlinear_arith)
        requires
            0 <= v / 16777216 < 256,
    ;
}

/// Functional description of the reader.
pub open spec fn parse_container_spec(s: Seq<u8>) -> Result<ContainerView, VrmError> {
    if s.len() < 4 || s[0] != MAGIC_0 || s[1] != MAGIC_1 || s[2] != MAGIC_2 || s[3] != MAGIC_3 {
        Result::Ok(
            ContainerView {
                binary: false,
                version: 0,
                declared_length: 0,
                json: s,
                bin: Option::None,
            },
        )
    } else if s.len() < 20 {
        Result::Err(VrmError::MalformedContainer)
    } else {
        let version = le32_at(s, 4);
        let declared = le32_at(s, 8);
        let jlen = le32_at(s, 12);
        let jtype = le32_at(s, 16);
        if jtype != CHUNK_JSON {
            Result::Err(VrmError::MalformedContainer)
        } else if 20 + jlen > s.len() {
            Result::Err(VrmError::MalformedContainer)
        } else {
            let json = s.subrange(20, 20 + jlen);
            let off = 20 + jlen;
            if off == s.len() {
                if declared == s.len() {
                    Result::Ok(
                        ContainerView {
                            binary: true,
                            version,
                            declared_length: declared,
                            json,
                            bin: Option::None,
                        },
                    )
                } else {
                    Result::Err(VrmError::MalformedContainer)
                }
            } else if off + 8 > s.len() {
                Result::Err(VrmError::MalformedContainer)
            } else {
                let blen = le32_at(s, off);
                let btype = le32_at(s, off + 4);
                if btype != CHUNK_BIN {
                    Result::Err(VrmError::MalformedContainer)
                } else if off + 8 + blen != s.len() {
                    Result::Err(VrmError::MalformedContainer)
                } else if declared != s.len() {
                    Result::Err(VrmError::MalformedContainer)
                } else {
                    Result::Ok(
                        ContainerView {
                            binary: true,
                            version,
                            declared_length: declared,
                            json,
                            bin: Option::Some(s.subrange(off + 8, off + 8 + blen)),
                        },
                    )
                }
            }
        }
    }
}

/// Functional description of the writer.
pub open spec fn encode_container_spec(c: ContainerView) -> Seq<u8> {
    if !c.binary {
        c.json
    } else {
        seq![MAGIC_0, MAGIC_1, MAGIC_2, MAGIC_3] + le32_bytes(c.version) + le32_bytes(
            c.declared_length,
        ) + le32_bytes(c.json.len() as int) + le32_bytes(CHUNK_JSON as int) + c.json + (
        match c.bin {
            Option::Some(b) => le32_bytes(b.len() as int) + le32_bytes(CHUNK_BIN as int) + b,
            Option::None => Seq::<u8>::empty(),
        })
    }
}

/// The little-endian 32-bit word at offset i.
pub fn read_le32(s: &Vec<u8>, i: usize) -> (r: u64)
    requires
        i + 4 <= s@.len(),
    ensures
        r == le32_at(s@, i as int),
        r < 0x1_0000_0000,
{
    let n: usize = s.len();
    let b0: u64 = s[i] as u64;
    let b1: u64 = s[i + 1] as u64;
    let b2: u64 = s[i + 2] as u64;
    let b3: u64 = s[i + 3] as u64;
    b0 + 256 * b1 + 65536 * b2 + 16777216 * b3
}

/// Copies the byte range [start, end) of a vector.
pub fn copy_range(s: &Vec<u8>, start: usize, end: usize) -> (r: Vec<u8>)
    requires
        start <= end,
        end <= s@.len(),
    ensures
        r@ == s@.subrange(start as int, end as int),
{
    let mut r: Vec<u8> = Vec::new();
    let mut i: usize = start;
    while i < end
        invariant
            start <= i <= end,
            end <= s@.len(),
            r@ == s@.subrange(start as int, i as int),
        decreases end - i,
    {
        r.push(s[i]);
        proof {
            assert(r@ =~= s@.subrange(start as int, (i + 1) as int));
        }
        i = i + 1;
    }
    r
}

/// Copies all bytes of a slice.
pub fn copy_range_slice(s: &[u8]) -> (r: Vec<u8>)
    ensures
        r@ == s@,
{
    let n: usize = s.len();
    let mut r: Vec<u8> = Vec::new();
    let mut i: usize = 0;
    while i < n
        invariant
            i <= n,
            n == s@.len(),
            r@ == s@.subrange(0, i as int),
        decreases n - i,
    {
        r.push(s[i]);
        proof {
            assert(r@ =~= s@.subrange(0, (i + 1) as int));
        }
        i = i + 1;
    }
    proof {
        assert(s@.subrange(0, n as int) =~= s@);
    }
    r
}

/// Splits raw bytes into a container: binary mode behind the magic token,
/// bare JSON otherwise. Strict in binary mode: the declared total length
/// must equal the bytes consumed by the header and chunks.
pub fn parse_container(bytes: &Vec<u8>) -> (r: Result<Container, VrmError>)
    ensures
        match r {
            Result::Ok(c) => parse_container_spec(bytes@) == Result::<ContainerView,
                VrmError,
            >::Ok(c@) && c@.wf(),
            Result::Err(e) => parse_container_spec(bytes@) == Result::<ContainerView,
                VrmError,
            >::Err(e),
        },
{
    let n: usize = bytes.len();
    if n < 4 || bytes[0] != MAGIC_0 || bytes[1] != MAGIC_1 || bytes[2] != MAGIC_2 || bytes[3]
        != MAGIC_3 {
        let json = copy_range(bytes, 0, n);
        proof {
            assert(bytes@.subrange(0, n as int) =~= bytes@);
        }
        return Result::Ok(
            Container { binary: false, version: 0, declared_length: 0, json, bin: Option::None },
        );
    }
    if n < 20 {
        return Result::Err(VrmError::MalformedContainer);
    }
    let version: u64 = read_le32(bytes, 4);
    let declared: u64 = read_le32(bytes, 8);
    let jlen: u64 = read_le32(bytes, 12);
    let jtype: u64 = read_le32(bytes, 16);
    if jtype != CHUNK_JSON {
        return Result::Err(VrmError::MalformedContainer);
    }
    if jlen > (n as u64) - 20 {
        return Result::Err(VrmError::MalformedContainer);
    }
    let jl: usize = jlen as usize;
    let json = copy_range(bytes, 20, 20 + jl);
    let off: usize = 20 + jl;
    if off == n {
        if declared == n as u64 {
            return Result::Ok(
                Container {
                    binary: true,
                    version,
                    declared_length: declared,
                    json,
                    bin: Option::None,
                },
            );
        } else {
            return Result::Err(VrmError::MalformedContainer);
        }
    }
    if n - off < 8 {
        return Result::Err(VrmError::MalformedContainer);
    }
    let blen: u64 = read_le32(bytes, off);
    let btype: u64 = read_le32(bytes, off + 4);
    if btype != CHUNK_BIN {
        return Result::Err(VrmError::MalformedContainer);
    }
    if blen != (n as u64) - (off as u64) - 8 {
        return Result::Err(VrmError::MalformedContainer);
    }
    if declared != n as u64 {
        return Result::Err(VrmError::MalformedContainer);
    }
    let bl: usize = blen as usize;
    let bin = copy_range(bytes, off + 8, off + 8 + bl);
    Result::Ok(
        Container {
            binary: true,
            version,
            declared_length: declared,
            json,
            bin: Option::Some(bin),
        },
    )
}

/// Appends the four little-endian bytes of a 32-bit word.
fn push_le32(out: &mut Vec<u8>, v: u64)
    requires
        v < 0x1_0000_0000,
    ensures
        final(out)@ == old(out)@ + le32_bytes(v as int),
{
    out.push((v % 256) as u8);
    out.push(((v / 256) % 256) as u8);
    out.push(((v / 65536) % 256) as u8);
    out.push(((v / 16777216) % 256) as u8);
    proof {
        assert(out@ =~= old(out)@ + le32_bytes(v as int));
    }
}

/// Appends all bytes of `src`.
fn push_bytes(out: &mut Vec<u8>, src: &Vec<u8>)
    ensures
        final(out)@ == old(out)@ + src@,
{
    let mut i: usize = 0;
    while i < src.len()
        invariant
            i <= src@.len(),
            out@ == old(out)@ + src@.subrange(0, i as int),
        decreases src@.len() - i,
    {
        out.push(src[i]);
        proof {
            assert(old(out)@ + src@.subrange(0, i as int) + seq![src@[i as int]] =~= old(out)@
                + src@.subrange(0, (i + 1) as int));
        }
        i = i + 1;
    }
    proof {
        assert(src@.subrange(0, src@.len() as int) =~= src@);
    }
}

impl Container {
    /// Serializes the container back to bytes: the exact inverse of the
    /// reader on well-formed containers.
    pub fn encode(&self) -> (r: Vec<u8>)
        requires
            self@.wf(),
        ensures
            r@ == encode_container_spec(self@),
    {
        if !self.binary {
            let r = copy_range(&self.json, 0, self.json.len());
            proof {
                assert(self.json@.subrange(0, self.json@.len() as int) =~= self.json@);
            }
            return r;
        }
        let mut out: Vec<u8> = Vec::new();
        out.push(MAGIC_0);
        out.push(MAGIC_1);
        out.push(MAGIC_2);
        out.push(MAGIC_3);
        proof {
            assert(out@ =~= seq![MAGIC_0, MAGIC_1, MAGIC_2, MAGIC_3]);
        }
        push_le32(&mut out, self.version);
        push_le32(&mut out, self.declared_length);
        push_le32(&mut out, self.json.len() as u64);
        push_le32(&mut out, CHUNK_JSON);
        push_bytes(&mut out, &self.json);
        match &self.bin {
            Option::Some(b) => {
                push_le32(&mut out, b.len() as u64);
                push_le32(&mut out, CHUNK_BIN);
                push_bytes(&mut out, b);
            },
            Option::None => {},
        }
        proof {
            assert(out@ =~= encode_container_spec(self@));
        }
        out
    }
}

/// Every container the reader accepts in binary mode satisfies the length
/// law: JSON chunk length plus binary chunk length plus header size equals
/// the declared total length.
pub proof fn lemma_container_length_law(s: Seq<u8>, c: ContainerView)
    requires
        parse_container_spec(s) == Result::<ContainerView, VrmError>::Ok(c),
        c.binary,
    ensures
        c.declared_length == c.json.len() + c.header_size() + (match c.bin {
            Option::Some(b) => b.len() as int,
            Option::None => 0,
        }),
{
}

/// Header facts about a serialized container: lengths, magic, and the four
/// little-endian header words read back as written.
#[verifier::rlimit(100)]
proof fn lemma_encode_header(c: ContainerView)
    requires
        c.wf(),
        c.binary,
    ensures
        encode_container_spec(c).len() == c.declared_length,
        encode_container_spec(c).len() >= 20,
        encode_container_spec(c)[0] == MAGIC_0,
        encode_container_spec(c)[1] == MAGIC_1,
        encode_container_spec(c)[2] == MAGIC_2,
        encode_container_spec(c)[3] == MAGIC_3,
        le32_at(encode_container_spec(c), 4) == c.version,
        le32_at(encode_container_spec(c), 8) == c.declared_length,
        le32_at(encode_container_spec(c), 12) == c.json.len(),
        le32_at(encode_container_spec(c), 16) == CHUNK_JSON,
        encode_container_spec(c).subrange(20, 20 + c.json.len() as int) == c.json,
{
    let e = encode_container_spec(c);
    let jlen = c.json.len() as int;
    lemma_le32_round_trip(c.version);
    lemma_le32_round_trip(c.declared_length);
    lemma_le32_round_trip(jlen);
    lemma_le32_round_trip(CHUNK_JSON as int);
    assert(le32_at(e, 4) == c.version) by {
        assert(e[4] == le32_bytes(c.version)[0]);
        assert(e[5] == le32_bytes(c.version)[1]);
        assert(e[6] == le32_bytes(c.version)[2]);
        assert(e[7] == le32_bytes(c.version)[3]);
        assert(le32_at(le32_bytes(c.version), 0) == c.version);
    }
    assert(le32_at(e, 8) == c.declared_length) by {
        assert(e[8] == le32_bytes(c.declared_length)[0]);
        assert(e[9] == le32_bytes(c.declared_length)[1]);
        assert(e[10] == le32_bytes(c.declared_length)[2]);
        assert(e[11] == le32_bytes(c.declared_length)[3]);
        assert(le32_at(le32_bytes(c.declared_length), 0) == c.declared_length);
    }
    assert(le32_at(e, 12) == jlen) by {
        assert(e[12] == le32_bytes(jlen)[0]);
        assert(e[13] == le32_bytes(jlen)[1]);
        assert(e[14] == le32_bytes(jlen)[2]);
        assert(e[15] == le32_bytes(jlen)[3]);
        assert(le32_at(le32_bytes(jlen), 0) == jlen);
    }
    assert(le32_at(e, 16) == CHUNK_JSON) by {
        assert(e[16] == le32_bytes(CHUNK_JSON as int)[0]);
        assert(e[17] == le32_bytes(CHUNK_JSON as int)[1]);
        assert(e[18] == le32_bytes(CHUNK_JSON as int)[2]);
        assert(e[19] == le32_bytes(CHUNK_JSON as int)[3]);
        assert(le32_at(le32_bytes(CHUNK_JSON as int), 0) == CHUNK_JSON);
    }
    assert(e.subrange(20, 20 + jlen) =~= c.json);
}

/// The binary chunk's length word reads back as written.
#[verifier::rlimit(100)]
proof fn lemma_encode_bin_len(c: ContainerView, b: Seq<u8>)
    requires
        c.wf(),
        c.binary,
        c.bin == Option::Some(b),
    ensures
        le32_at(encode_container_spec(c), 20 + c.json.len() as int) == b.len(),
{
    let e = encode_container_spec(c);
    let off = 20 + c.json.len() as int;
    let blen = b.len() as int;
    lemma_le32_round_trip(blen);
    assert(e[off] == le32_bytes(blen)[0]);
    assert(e[off + 1] == le32_bytes(blen)[1]);
    assert(e[off + 2] == le32_bytes(blen)[2]);
    assert(e[off + 3] == le32_bytes(blen)[3]);
    assert(le32_at(le32_bytes(blen), 0) == blen);
}

/// The binary chunk's type word reads back as written.
#[verifier::rlimit(100)]
proof fn lemma_encode_bin_type(c: ContainerView, b: Seq<u8>)
    requires
        c.wf(),
        c.binary,
        c.bin == Option::Some(b),
    ensures
        le32_at(encode_container_spec(c), 24 + c.json.len() as int) == CHUNK_BIN,
{
    let e = encode_container_spec(c);
    let off = 20 + c.json.len() as int;
    lemma_le32_round_trip(CHUNK_BIN as int);
    assert(e[off + 4] == le32_bytes(CHUNK_BIN as int)[0]);
    assert(e[off + 5] == le32_bytes(CHUNK_BIN as int)[1]);
    assert(e[off + 6] == le32_bytes(CHUNK_BIN as int)[2]);
    assert(e[off + 7] == le32_bytes(CHUNK_BIN as int)[3]);
    assert(le32_at(le32_bytes(CHUNK_BIN as int), 0) == CHUNK_BIN);
}

/// The binary chunk's payload reads back as written.
#[verifier::rlimit(100)]
proof fn lemma_encode_bin_payload(c: ContainerView, b: Seq<u8>)
    requires
        c.wf(),
        c.binary,
        c.bin == Option::Some(b),
    ensures
        encode_container_spec(c).subrange(
            28 + c.json.len() as int,
            28 + c.json.len() as int + b.len() as int,
        ) == b,
{
    let e = encode_container_spec(c);
    let off = 20 + c.json.len() as int;
    let blen = b.len() as int;
    assert(e.subrange(off + 8, off + 8 + blen) =~= b);
}

/// Serializing a well-formed container and reading it back yields the same
/// container: magic, version and chunk boundaries are all preserved.
#[verifier::rlimit(100)]
pub proof fn lemma_container_round_trip(c: ContainerView)
    requires
        c.wf(),
        c.binary,
    ensures
        parse_container_spec(encode_container_spec(c)) == Result::<ContainerView, VrmError>::Ok(c),
{
    let e = encode_container_spec(c);
    let jlen = c.json.len() as int;
    let off = 20 + jlen;
    lemma_encode_header(c);
    match c.bin {
        Option::None => {
            assert(off == e.len());
            let parsed = parse_container_spec(e);
            assert(parsed is Ok);
            assert(parsed->Ok_0 =~= c);
        },
        Option::Some(b) => {
            lemma_encode_bin_len(c, b);
            lemma_encode_bin_type(c, b);
            lemma_encode_bin_payload(c, b);
            let blen = b.len() as int;
            assert(off + 8 <= e.len());
            let parsed = parse_container_spec(e);
            assert(parsed is Ok);
            assert(parsed->Ok_0 =~= c);
        },
    }
}

/// Writing back the word read at offset i reproduces the four bytes.
#[verifier::rlimit(100)]
proof fn lemma_le32_bytes_inverse(s: Seq<u8>, i: int)
    requires
        0 <= i,
        i + 4 <= s.len(),
    ensures
        le32_bytes(le32_at(s, i)) =~= s.subrange(i, i + 4),
{
    let b0 = s[i] as int;
    let b1 = s[i + 1] as int;
    let b2 = s[i + 2] as int;
    let b3 = s[i + 3] as int;
    let v = le32_at(s, i);
    assert(v % 256 == b0) by (nonlinear_arith)
        requires
            v == b0 + 256 * b1 + 65536 * b2 + 16777216 * b3,
            0 <= b0 < 256,
            0 <= b1 < 256,
            0 <= b2 < 256,
            0 <= b3 < 256,
    ;
    assert((v / 256) % 256 == b1) by (nonlinear_arith)
        requires
            v == b0 + 256 * b1 + 65536 * b2 + 16777216 * b3,
            0 <= b0 < 256,
            0 <= b1 < 256,
            0 <= b2 < 256,
            0 <= b3 < 256,
    ;
    assert((v / 65536) % 256 == b2) by (nonlinear_arith)
        requires
            v == b0 + 256 * b1 + 65536 * b2 + 16777216 * b3,
            0 <= b0 < 256,
            0 <= b1 < 256,
            0 <= b2 < 256,
            0 <= b3 < 256,
    ;
    assert((v / 16777216) % 256 == b3) by (nonlinear_arith)
        requires
            v == b0 + 256 * b1 + 65536 * b2 + 16777216 * b3,
            0 <= b0 < 256,
            0 <= b1 < 256,
            0 <= b2 < 256,
            0 <= b3 < 256,
    ;
}

/// Re-serializing what the reader accepted reproduces the input bytes
/// exactly: reading preserves magic, version and every chunk boundary.
#[verifier::rlimit(100)]
pub proof fn lemma_container_reserialize(s: Seq<u8>, c: ContainerView)
    requires
        parse_container_spec(s) == Result::<ContainerView, VrmError>::Ok(c),
    ensures
        encode_container_spec(c) =~= s,
{
    if !c.binary {
        assert(c.json =~= s);
    } else {
        let jlen = le32_at(s, 12);
        let off = 20 + jlen;
        lemma_le32_bytes_inverse(s, 4);
        lemma_le32_bytes_inverse(s, 8);
        lemma_le32_bytes_inverse(s, 12);
        lemma_le32_bytes_inverse(s, 16);
        assert(c.json.len() == jlen);
        match c.bin {
            Option::None => {
                assert(encode_container_spec(c) =~= s);
            },
            Option::Some(b) => {
                lemma_le32_bytes_inverse(s, off);
                lemma_le32_bytes_inverse(s, off + 4);
                assert(b.len() == le32_at(s, off));
                assert(encode_container_spec(c) =~= s);
            },
        }
    }
}

} // verus!