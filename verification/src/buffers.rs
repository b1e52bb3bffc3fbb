//! Buffer resolution: embedded blob, data URIs, external paths.
//!
//! Each declared buffer resolves to bytes: from the container's binary
//! chunk, from a base64 or raw data URI, or from an external file whose
//! bytes the caller fetched by path. Only the two buffer mime types are
//! accepted for buffer data URIs.

use vstd::prelude::*;
use vstd::string::StringSliceAdditionalSpecFns;

use base64::Engine as _;

use crate::container::copy_range;
use crate::document::{bytes_eq_str, BufferDecl, GltfDocument};
use crate::error::VrmError;
use crate::json::bytes_eq;

verus! {

/// The decoded bytes that base64's standard engine yields for an input, or
/// nothing when it rejects the input.
pub uninterp spec fn base64_decode_of(s: Seq<u8>) -> Option<Seq<u8>>;

/// Relies on base64's standard-alphabet engine: whether an input decodes,
/// and to what, depends on the input bytes alone.
#[verifier::external_body]
fn base64_decode(data: &[u8]) -> (r: Option<Vec<u8>>)
    ensures
        match r {
            Option::Some(v) => base64_decode_of(data@) == Option::Some(v@),
            Option::None => base64_decode_of(data@) is None,
        },
{
    match base64::engine::general_purpose::STANDARD.decode(data) {
        Ok(v) => Some(v),
        Err(_) => None,
    }
}

/// The value of an ASCII hex digit, or 16 for any other byte.
pub open spec fn hex_val_spec(b: u8) -> int {
    if 0x30 <= b && b <= 0x39 {
        b - 0x30
    } else if 0x41 <= b && b <= 0x46 {
        b - 0x41 + 10
    } else if 0x61 <= b && b <= 0x66 {
        b - 0x61 + 10
    } else {
        16
    }
}

/// Percent-decoding: a percent sign followed by two hex digits becomes one
/// byte; any other byte, including a percent sign without a valid pair,
/// passes through unchanged.
pub open spec fn percent_decode_spec(s: Seq<u8>) -> Seq<u8>
    decreases s.len(),
{
    if s.len() == 0 {
        Seq::<u8>::empty()
    } else if s[0] == 0x25 && s.len() >= 3 && hex_val_spec(s[1]) < 16 && hex_val_spec(s[2]) < 16 {
        seq![(hex_val_spec(s[1]) * 16 + hex_val_spec(s[2])) as u8] + percent_decode_spec(s.skip(3))
    } else {
        seq![s[0]] + percent_decode_spec(s.skip(1))
    }
}

/// Relies on percent_encoding::percent_decode: %XX hex pairs (either case)
/// become the named byte, and a percent sign without a valid pair passes
/// through as itself.
#[verifier::external_body]
pub fn percent_decode_bytes(s: &[u8]) -> (r: Vec<u8>)
    ensures
        r@ == percent_decode_spec(s@),
{
    percent_encoding::percent_decode(s).collect()
}

/// The delimiter occurs first at position i.
pub open spec fn found_at(s: Seq<u8>, d: u8, i: int) -> bool {
    &&& 0 <= i < s.len()
    &&& s[i] == d
    &&& forall|j: int| 0 <= j < i ==> s[j] != d
}

/// The position of the delimiter's first occurrence, or -1 when absent.
pub open spec fn find_first(s: Seq<u8>, d: u8) -> int
    decreases s.len(),
{
    if s.len() == 0 {
        -1
    } else if s[0] == d {
        0
    } else {
        let r = find_first(s.skip(1), d);
        if r < 0 {
            -1
        } else {
            r + 1
        }
    }
}

/// A witnessed first occurrence determines find_first.
pub proof fn lemma_find_first_found(s: Seq<u8>, d: u8, i: int)
    requires
        found_at(s, d, i),
    ensures
        find_first(s, d) == i,
    decreases i,
{
    if i == 0 {
    } else {
        assert(s[0] != d);
        assert(found_at(s.skip(1), d, i - 1)) by {
            assert(s.skip(1)[i - 1] == s[i]);
            assert forall|j: int| 0 <= j < i - 1 implies s.skip(1)[j] != d by {
                assert(s.skip(1)[j] == s[j + 1]);
            }
        }
        lemma_find_first_found(s.skip(1), d, i - 1);
    }
}

/// Absence of the delimiter determines find_first.
pub proof fn lemma_find_first_none(s: Seq<u8>, d: u8)
    requires
        forall|j: int| 0 <= j < s.len() ==> s[j] != d,
    ensures
        find_first(s, d) == -1,
    decreases s.len(),
{
    if s.len() > 0 {
        assert forall|j: int| 0 <= j < s.skip(1).len() implies s.skip(1)[j] != d by {
            assert(s.skip(1)[j] == s[j + 1]);
        }
        lemma_find_first_none(s.skip(1), d);
    }
}

/// Splits at the first occurrence of the delimiter.
pub fn split_once(input: &[u8], delimiter: u8) -> (r: Option<(Vec<u8>, Vec<u8>)>)
    ensures
        match r {
            Option::Some((a, b)) => exists|i: int|
                #[trigger] found_at(input@, delimiter, i) && a@ == input@.subrange(0, i) && b@
                    == input@.subrange(i + 1, input@.len() as int),
            Option::None => forall|j: int| 0 <= j < input@.len() ==> input@[j] != delimiter,
        },
{
    let n: usize = input.len();
    let mut i: usize = 0;
    while i < n
        invariant
            i <= n,
            n == input@.len(),
            forall|j: int| 0 <= j < i ==> input@[j] != delimiter,
        decreases n - i,
    {
        if input[i] == delimiter {
            let mut a: Vec<u8> = Vec::new();
            let mut k: usize = 0;
            while k < i
                invariant
                    k <= i < n,
                    n == input@.len(),
                    a@ == input@.subrange(0, k as int),
                decreases i - k,
            {
                a.push(input[k]);
                proof {
                    assert(a@ =~= input@.subrange(0, (k + 1) as int));
                }
                k = k + 1;
            }
            let mut b: Vec<u8> = Vec::new();
            let mut m: usize = i + 1;
            while m < n
                invariant
                    i < m <= n || m == i + 1,
                    m <= n,
                    n == input@.len(),
                    b@ == input@.subrange(i + 1, m as int),
                decreases n - m,
            {
                b.push(input[m]);
                proof {
                    assert(b@ =~= input@.subrange(i + 1, (m + 1) as int));
                }
                m = m + 1;
            }
            proof {
                assert(found_at(input@, delimiter, i as int));
            }
            return Option::Some((a, b));
        }
        i = i + 1;
    }
    Option::None
}

/// Whether the bytes form a data URI: the "data:" prefix followed by a
/// comma somewhere in the remainder.
pub open spec fn is_data_uri(s: Seq<u8>) -> bool {
    &&& s.len() >= 5
    &&& s[0] == 0x64
    &&& s[1] == 0x61
    &&& s[2] == 0x74
    &&& s[3] == 0x61
    &&& s[4] == 0x3A
    &&& find_first(s.subrange(5, s.len() as int), 0x2C) >= 0
}

/// The bytes between the prefix and the first comma.
pub open spec fn data_uri_mime_part(s: Seq<u8>) -> Seq<u8>
    recommends
        is_data_uri(s),
{
    let rest = s.subrange(5, s.len() as int);
    rest.subrange(0, find_first(rest, 0x2C))
}

/// Whether the mime part carries the base64 marker.
pub open spec fn data_uri_is_base64(s: Seq<u8>) -> bool
    recommends
        is_data_uri(s),
{
    has_base64_suffix(data_uri_mime_part(s))
}

/// The declared mime type: the mime part without the base64 marker.
pub open spec fn data_uri_mime(s: Seq<u8>) -> Seq<u8>
    recommends
        is_data_uri(s),
{
    let m = data_uri_mime_part(s);
    if has_base64_suffix(m) {
        m.subrange(0, m.len() - 7)
    } else {
        m
    }
}

/// The raw payload: everything after the first comma.
pub open spec fn data_uri_payload(s: Seq<u8>) -> Seq<u8>
    recommends
        is_data_uri(s),
{
    let rest = s.subrange(5, s.len() as int);
    rest.subrange(find_first(rest, 0x2C) + 1, rest.len() as int)
}

/// A parsed data URI: mime type, base64 flag, payload bytes.
#[derive(Clone, Debug, PartialEq, Eq)]
pub struct DataUri {
    /// The declared mime type.
    pub mime_type: Vec<u8>,
    /// Whether the payload is base64-encoded.
    pub base64: bool,
    /// The raw payload bytes.
    pub data: Vec<u8>,
}

/// Whether the bytes end in the base64 marker.
pub open spec fn has_base64_suffix(m: Seq<u8>) -> bool {
    m.len() >= 7 && m.subrange(m.len() - 7, m.len() as int) == ";base64".spec_bytes()
}

impl DataUri {
    /// Parses a data URI: the "data:" prefix, a mime type up to the first
    /// comma (with an optional ";base64" marker), then the payload.
    /// Succeeds exactly on data URIs.
    pub fn parse(uri: &[u8]) -> (r: Result<DataUri, ()>)
        ensures
            (r is Ok) <==> is_data_uri(uri@),
            match r {
                Result::Ok(d) => {
                    &&& d.mime_type@ == data_uri_mime(uri@)
                    &&& d.base64 == data_uri_is_base64(uri@)
                    &&& d.data@ == data_uri_payload(uri@)
                },
                Result::Err(_) => true,
            },
    {
        let n: usize = uri.len();
        if n < 5 {
            return Result::Err(());
        }
        if !(uri[0] == 0x64 && uri[1] == 0x61 && uri[2] == 0x74 && uri[3] == 0x61 && uri[4]
            == 0x3A) {
            return Result::Err(());
        }
        let rest: Vec<u8> = slice_tail(uri, 5);
        let (mime_part, data_part): (Vec<u8>, Vec<u8>) = match split_once(rest.as_slice(), 0x2C) {
            Option::Some(p) => p,
            Option::None => {
                proof {
                    lemma_find_first_none(rest@, 0x2C);
                }
                return Result::Err(());
            },
        };
        let ml: usize = mime_part.len();
        let is_b64: bool = suffix_is_base64(&mime_part);
        let mime_type: Vec<u8> = if is_b64 {
            copy_range(&mime_part, 0, ml - 7)
        } else {
            copy_range(&mime_part, 0, ml)
        };
        proof {
            let restv = uri@.subrange(5, uri@.len() as int);
            let i = choose|i: int|
                #[trigger] found_at(restv, 0x2C, i) && mime_part@ == restv.subrange(0, i)
                    && data_part@ == restv.subrange(i + 1, restv.len() as int);
            lemma_find_first_found(restv, 0x2C, i);
            assert(mime_part@.subrange(0, ml as int) =~= mime_part@);
            if is_b64 {
                assert(mime_part@.subrange(0, ml - 7) =~= restv.subrange(0, i).subrange(
                    0,
                    i - 7,
                ));
            }
        }
        Result::Ok(DataUri { mime_type, base64: is_b64, data: data_part })
    }

    /// Decodes the payload: base64 when marked, raw bytes otherwise.
    pub fn decode(&self) -> (r: Result<Vec<u8>, VrmError>)
        ensures
            match r {
                Result::Ok(v) => (if self.base64 {
                    base64_decode_of(self.data@) == Option::Some(v@)
                } else {
                    v@ == self.data@
                }),
                Result::Err(e) => e == VrmError::Base64Decode && self.base64 && base64_decode_of(
                    self.data@,
                ) is None,
            },
    {
        if self.base64 {
            match base64_decode(self.data.as_slice()) {
                Option::Some(v) => Result::Ok(v),
                Option::None => Result::Err(VrmError::Base64Decode),
            }
        } else {
            let r = copy_range(&self.data, 0, self.data.len());
            proof {
                assert(self.data@.subrange(0, self.data@.len() as int) =~= self.data@);
            }
            Result::Ok(r)
        }
    }
}

/// Whether the bytes end in the base64 marker.
fn suffix_is_base64(m: &Vec<u8>) -> (r: bool)
    ensures
        r == has_base64_suffix(m@),
{
    let n: usize = m.len();
    if n < 7 {
        return false;
    }
    let tail: Vec<u8> = copy_range(m, n - 7, n);
    let r = bytes_eq_str(tail.as_slice(), ";base64");
    r
}

/// Copies the bytes of a slice from `start` on.
fn slice_tail(s: &[u8], start: usize) -> (r: Vec<u8>)
    requires
        start <= s@.len(),
    ensures
        r@ == s@.subrange(start as int, s@.len() as int),
{
    let n: usize = s.len();
    let mut r: Vec<u8> = Vec::new();
    let mut i: usize = start;
    while i < n
        invariant
            start <= i <= n,
            n == s@.len(),
            r@ == s@.subrange(start as int, i as int),
        decreases n - i,
    {
        r.push(s[i]);
        proof {
            assert(r@ =~= s@.subrange(start as int, (i + 1) as int));
        }
        i = i + 1;
    }
    r
}

/// Where one buffer's bytes come from.
#[derive(Clone, Debug, PartialEq, Eq)]
pub enum BufferSource {
    /// The container's binary chunk.
    Blob,
    /// Bytes decoded from a data URI.
    DataBytes(Vec<u8>),
    /// An external file, by percent-decoded relative path.
    External(Vec<u8>),
}

/// The accepted mime types of a buffer data URI.
pub open spec fn buffer_mime_ok(dec: Seq<u8>) -> bool {
    ||| data_uri_mime(dec) == "application/octet-stream".spec_bytes()
    ||| data_uri_mime(dec) == "application/gltf-buffer".spec_bytes()
}

/// What classifying one buffer declaration must yield.
pub open spec fn buffer_source_ok(decl: BufferDecl, r: Result<BufferSource, VrmError>) -> bool {
    match decl.uri {
        Option::None => r == Result::<BufferSource, VrmError>::Ok(BufferSource::Blob),
        Option::Some(u) => {
            let dec = percent_decode_spec(u@);
            if !is_data_uri(dec) {
                match r {
                    Result::Ok(BufferSource::External(p)) => p@ == dec,
                    _ => false,
                }
            } else if !buffer_mime_ok(dec) {
                r == Result::<BufferSource, VrmError>::Err(VrmError::BufferFormatUnsupported)
            } else if data_uri_is_base64(dec) {
                match base64_decode_of(data_uri_payload(dec)) {
                    Option::Some(b) => match r {
                        Result::Ok(BufferSource::DataBytes(v)) => v@ == b,
                        _ => false,
                    },
                    Option::None => r == Result::<BufferSource, VrmError>::Err(
                        VrmError::Base64Decode,
                    ),
                }
            } else {
                match r {
                    Result::Ok(BufferSource::DataBytes(v)) => v@ == data_uri_payload(dec),
                    _ => false,
                }
            }
        },
    }
}

/// Classifies one buffer declaration. A buffer without a URI reads the
/// blob. A data URI must carry one of the two accepted buffer mime types
/// and decode; any other URI is an external path.
pub fn buffer_source(buffer: &BufferDecl) -> (r: Result<BufferSource, VrmError>)
    ensures
        buffer_source_ok(*buffer, r),
{
    let uri: &Vec<u8> = match &buffer.uri {
        Option::Some(u) => u,
        Option::None => {
            return Result::Ok(BufferSource::Blob);
        },
    };
    let decoded: Vec<u8> = percent_decode_bytes(uri.as_slice());
    match DataUri::parse(decoded.as_slice()) {
        Result::Ok(d) => {
            let ok_mime: bool = bytes_eq_str(d.mime_type.as_slice(), "application/octet-stream")
                || bytes_eq_str(d.mime_type.as_slice(), "application/gltf-buffer");
            if !ok_mime {
                return Result::Err(VrmError::BufferFormatUnsupported);
            }
            match d.decode() {
                Result::Ok(bytes) => Result::Ok(BufferSource::DataBytes(bytes)),
                Result::Err(e) => Result::Err(e),
            }
        },
        Result::Err(_) => Result::Ok(BufferSource::External(decoded)),
    }
}

/// The bytes of the first fetched pair whose path matches.
pub open spec fn lookup_fetched_spec(fetched: Seq<(Vec<u8>, Vec<u8>)>, path: Seq<u8>) -> Option<
    Seq<u8>,
>
    decreases fetched.len(),
{
    if fetched.len() == 0 {
        Option::None
    } else if (fetched[0].0)@ == path {
        Option::Some((fetched[0].1)@)
    } else {
        lookup_fetched_spec(fetched.skip(1), path)
    }
}

/// A prefix without a match leaves the lookup result unchanged.
proof fn lemma_lookup_skip(fetched: Seq<(Vec<u8>, Vec<u8>)>, path: Seq<u8>, i: int)
    requires
        0 <= i <= fetched.len(),
        forall|j: int| 0 <= j < i ==> (#[trigger] fetched[j].0)@ != path,
    ensures
        lookup_fetched_spec(fetched, path) == lookup_fetched_spec(fetched.skip(i), path),
    decreases i,
{
    if i > 0 {
        assert((fetched[0].0)@ != path);
        assert forall|j: int| 0 <= j < i - 1 implies (#[trigger] fetched.skip(1)[j].0)@
            != path by {
            assert(fetched.skip(1)[j] == fetched[j + 1]);
        }
        lemma_lookup_skip(fetched.skip(1), path, i - 1);
        assert(fetched.skip(1).skip(i - 1) =~= fetched.skip(i));
    } else {
        assert(fetched.skip(0) =~= fetched);
    }
}

/// The bytes one buffer declaration must resolve to, or its error: the
/// blob, the data-URI payload (decoded when base64), or the fetched bytes
/// of the percent-decoded external path.
pub open spec fn buffer_bytes_spec(
    decl: BufferDecl,
    blob: Option<Seq<u8>>,
    fetched: Seq<(Vec<u8>, Vec<u8>)>,
) -> Result<Seq<u8>, VrmError> {
    match decl.uri {
        Option::None => match blob {
            Option::Some(b) => Result::Ok(b),
            Option::None => Result::Err(VrmError::MissingBlob),
        },
        Option::Some(u) => {
            let dec = percent_decode_spec(u@);
            if !is_data_uri(dec) {
                match lookup_fetched_spec(fetched, dec) {
                    Option::Some(b) => Result::Ok(b),
                    Option::None => Result::Err(VrmError::AssetNotFound),
                }
            } else if !buffer_mime_ok(dec) {
                Result::Err(VrmError::BufferFormatUnsupported)
            } else if data_uri_is_base64(dec) {
                match base64_decode_of(data_uri_payload(dec)) {
                    Option::Some(b) => Result::Ok(b),
                    Option::None => Result::Err(VrmError::Base64Decode),
                }
            } else {
                Result::Ok(data_uri_payload(dec))
            }
        },
    }
}

/// The blob bytes an optional reference denotes.
pub open spec fn blob_view(blob: Option<&Vec<u8>>) -> Option<Seq<u8>> {
    match blob {
        Option::Some(b) => Option::Some(b@),
        Option::None => Option::None,
    }
}

/// Resolves every declared buffer to bytes. The blob comes from the
/// container; external files come from the fetched (path, bytes) pairs the
/// caller supplies; a missing pair fails with `AssetNotFound`, a missing
/// blob with `MissingBlob`. Succeeds exactly when every buffer resolves,
/// and then entry i holds buffer i's bytes; fails with the first failing
/// buffer's error.
pub fn resolve_buffers(
    doc: &GltfDocument,
    blob: Option<&Vec<u8>>,
    fetched: &Vec<(Vec<u8>, Vec<u8>)>,
) -> (r: Result<Vec<Vec<u8>>, VrmError>)
    ensures
        match r {
            Result::Ok(v) => v@.len() == doc.buffers@.len() && (forall|i: int|
                0 <= i < v@.len() ==> buffer_bytes_spec(doc.buffers@[i], blob_view(blob), fetched@)
                    == Result::<Seq<u8>, VrmError>::Ok((#[trigger] v@[i])@)),
            Result::Err(e) => exists|i: int|
                0 <= i < doc.buffers@.len() && #[trigger] buffer_bytes_spec(
                    doc.buffers@[i],
                    blob_view(blob),
                    fetched@,
                ) == Result::<Seq<u8>, VrmError>::Err(e) && (forall|j: int|
                    0 <= j < i ==> buffer_bytes_spec(
                        #[trigger] doc.buffers@[j],
                        blob_view(blob),
                        fetched@,
                    ) is Ok),
        },
{
    let mut out: Vec<Vec<u8>> = Vec::new();
    let mut i: usize = 0;
    while i < doc.buffers.len()
        invariant
            i <= doc.buffers@.len(),
            out@.len() == i,
            forall|j: int|
                0 <= j < i ==> buffer_bytes_spec(doc.buffers@[j], blob_view(blob), fetched@)
                    == Result::<Seq<u8>, VrmError>::Ok((#[trigger] out@[j])@),
        decreases doc.buffers@.len() - i,
    {
        match buffer_source(&doc.buffers[i]) {
            Result::Ok(BufferSource::Blob) => {
                match blob {
                    Option::Some(b) => {
                        let copied = copy_range(b, 0, b.len());
                        proof {
                            assert(b@.subrange(0, b@.len() as int) =~= b@);
                        }
                        out.push(copied);
                    },
                    Option::None => {
                        proof {
                            assert(buffer_bytes_spec(
                                doc.buffers@[i as int],
                                blob_view(blob),
                                fetched@,
                            ) == Result::<Seq<u8>, VrmError>::Err(VrmError::MissingBlob));
                            assert forall|j: int| 0 <= j < i implies buffer_bytes_spec(
                                #[trigger] doc.buffers@[j],
                                blob_view(blob),
                                fetched@,
                            ) is Ok by {
                                assert(buffer_bytes_spec(doc.buffers@[j], blob_view(blob), fetched@)
                                    == Result::<Seq<u8>, VrmError>::Ok((out@[j])@));
                            }
                        }
                        return Result::Err(VrmError::MissingBlob);
                    },
                }
            },
            Result::Ok(BufferSource::DataBytes(bytes)) => {
                out.push(bytes);
            },
            Result::Ok(BufferSource::External(path)) => {
                match lookup_fetched(fetched, path.as_slice()) {
                    Option::Some(bytes) => {
                        out.push(bytes);
                    },
                    Option::None => {
                        proof {
                            assert(buffer_bytes_spec(
                                doc.buffers@[i as int],
                                blob_view(blob),
                                fetched@,
                            ) == Result::<Seq<u8>, VrmError>::Err(VrmError::AssetNotFound));
                            assert forall|j: int| 0 <= j < i implies buffer_bytes_spec(
                                #[trigger] doc.buffers@[j],
                                blob_view(blob),
                                fetched@,
                            ) is Ok by {
                                assert(buffer_bytes_spec(doc.buffers@[j], blob_view(blob), fetched@)
                                    == Result::<Seq<u8>, VrmError>::Ok((out@[j])@));
                            }
                        }
                        return Result::Err(VrmError::AssetNotFound);
                    },
                }
            },
            Result::Err(e) => {
                proof {
                    assert(buffer_bytes_spec(doc.buffers@[i as int], blob_view(blob), fetched@)
                        == Result::<Seq<u8>, VrmError>::Err(e));
                    assert forall|j: int| 0 <= j < i implies buffer_bytes_spec(
                        #[trigger] doc.buffers@[j],
                        blob_view(blob),
                        fetched@,
                    ) is Ok by {
                        assert(buffer_bytes_spec(doc.buffers@[j], blob_view(blob), fetched@)
                            == Result::<Seq<u8>, VrmError>::Ok((out@[j])@));
                    }
                }
                return Result::Err(e);
            },
        }
        i = i + 1;
    }
    Result::Ok(out)
}

/// Finds the bytes of the first fetched pair whose path matches.
fn lookup_fetched(fetched: &Vec<(Vec<u8>, Vec<u8>)>, path: &[u8]) -> (r: Option<Vec<u8>>)
    ensures
        match r {
            Option::Some(b) => lookup_fetched_spec(fetched@, path@) == Option::Some(b@),
            Option::None => lookup_fetched_spec(fetched@, path@) is None,
        },
{
    let mut i: usize = 0;
    while i < fetched.len()
        invariant
            i <= fetched@.len(),
            forall|j: int| 0 <= j < i ==> (#[trigger] fetched@[j].0)@ != path@,
        decreases fetched@.len() - i,
    {
        if bytes_eq(fetched[i].0.as_slice(), path) {
            let b: &Vec<u8> = &fetched[i].1;
            let copied = copy_range(b, 0, b.len());
            proof {
                lemma_lookup_skip(fetched@, path@, i as int);
                assert(fetched@.skip(i as int)[0] == fetched@[i as int]);
                assert(b@.subrange(0, b@.len() as int) =~= b@);
            }
            return Option::Some(copied);
        }
        i = i + 1;
    }
    proof {
        lemma_lookup_skip(fetched@, path@, fetched@.len() as int);
        assert(fetched@.skip(fetched@.len() as int).len() == 0);
    }
    Option::None
}

} // verus!
