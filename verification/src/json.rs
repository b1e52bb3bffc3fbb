//! A JSON value tree and a parser for the container's document bytes.
//!
//! Strings are kept as raw UTF-8 bytes with escapes resolved. A number token
//! without fraction or exponent becomes `Int` (clamped to i64); any other
//! number becomes a Q47.16 `Num` scalar. Nesting is limited to a fixed depth.

use vstd::prelude::*;

use crate::error::VrmError;
use crate::fixed::{fx_add, fx_div, fx_mul, fx_q16_sat, FX_ONE, FX_RAW_MAX};

verus! {

/// Deepest nesting of arrays and objects the parser accepts.
pub const MAX_DEPTH: u32 = 128;

/// A parsed JSON value.
#[derive(Debug, PartialEq, Eq)]
pub enum JsonValue {
    /// The literal null.
    Null,
    /// true or false.
    Bool(bool),
    /// A number token with neither fraction nor exponent, clamped to i64.
    Int(i64),
    /// Any other number, as a Q47.16 scalar.
    Num(i64),
    /// A string, as UTF-8 bytes with escapes resolved.
    Str(Vec<u8>),
    /// An array.
    Arr(Vec<JsonValue>),
    /// An object: members in document order, names as UTF-8 bytes.
    Obj(Vec<(Vec<u8>, JsonValue)>),
}

/// The first member of a pair list whose name matches.
pub open spec fn find_member(pairs: Seq<(Vec<u8>, JsonValue)>, key: Seq<u8>) -> Option<JsonValue>
    decreases pairs.len(),
{
    if pairs.len() == 0 {
        Option::None
    } else if (pairs[0].0)@ == key {
        Option::Some(pairs[0].1)
    } else {
        find_member(pairs.skip(1), key)
    }
}

/// A prefix without a match leaves the member lookup unchanged.
proof fn lemma_find_member_skip(pairs: Seq<(Vec<u8>, JsonValue)>, key: Seq<u8>, i: int)
    requires
        0 <= i <= pairs.len(),
        forall|j: int| 0 <= j < i ==> (#[trigger] pairs[j].0)@ != key,
    ensures
        find_member(pairs, key) == find_member(pairs.skip(i), key),
    decreases i,
{
    if i > 0 {
        assert((pairs[0].0)@ != key);
        assert forall|j: int| 0 <= j < i - 1 implies (#[trigger] pairs.skip(1)[j].0)@ != key by {
            assert(pairs.skip(1)[j] == pairs[j + 1]);
        }
        lemma_find_member_skip(pairs.skip(1), key, i - 1);
        assert(pairs.skip(1).skip(i - 1) =~= pairs.skip(i));
    } else {
        assert(pairs.skip(0) =~= pairs);
    }
}

/// The scalar a value denotes: a Num as itself, an Int scaled to Q47.16
/// with saturation.
pub open spec fn fx_of_value(v: JsonValue) -> Option<i64> {
    match v {
        JsonValue::Num(x) => Option::Some(x),
        JsonValue::Int(x) => Option::Some(
            crate::fixed::fx_mul_spec(x as int, 0x1_0000_0000) as i64,
        ),
        _ => Option::None,
    }
}

/// The index a value denotes: an integer (a Num truncated to whole
/// units) that is nonnegative and below the address range.
pub open spec fn index_of_value(v: JsonValue) -> Option<usize> {
    let n = match v {
        JsonValue::Int(x) => Option::Some(x as int),
        JsonValue::Num(x) => Option::Some(crate::fixed::trunc_div_spec(x as int, 65536)),
        _ => Option::<int>::None,
    };
    match n {
        Option::Some(x) => if 0 <= x < usize::MAX {
            Option::Some(x as usize)
        } else {
            Option::None
        },
        Option::None => Option::None,
    }
}

/// The member an object holds under a name (None for non-objects).
pub open spec fn json_member(v: JsonValue, key: Seq<u8>) -> Option<JsonValue> {
    match v {
        JsonValue::Obj(pairs) => find_member(pairs@, key),
        _ => Option::None,
    }
}

impl JsonValue {
    /// Looks up the first member with the given name in an object.
    pub fn get(&self, key: &[u8]) -> (r: Option<&JsonValue>)
        ensures
            match r {
                Option::Some(c) => json_member(*self, key@) == Option::Some(*c),
                Option::None => json_member(*self, key@) is None,
            },
    {
        match self {
            JsonValue::Obj(pairs) => {
                let mut i: usize = 0;
                while i < pairs.len()
                    invariant
                        i <= pairs@.len(),
                        self == JsonValue::Obj(*pairs),
                        forall|j: int| 0 <= j < i ==> (#[trigger] pairs@[j].0)@ != key@,
                    decreases pairs.len() - i,
                {
                    if bytes_eq(pairs[i].0.as_slice(), key) {
                        proof {
                            lemma_find_member_skip(pairs@, key@, i as int);
                            assert(pairs@.skip(i as int)[0] == pairs@[i as int]);
                        }
                        return Option::Some(&pairs[i].1);
                    }
                    i = i + 1;
                }
                proof {
                    lemma_find_member_skip(pairs@, key@, pairs@.len() as int);
                    assert(pairs@.skip(pairs@.len() as int).len() == 0);
                }
                Option::None
            },
            _ => Option::None,
        }
    }

    /// The elements of an array value.
    pub fn as_array(&self) -> (r: Option<&Vec<JsonValue>>)
        ensures
            (r is Some) <==> (self is Arr),
            self is Arr ==> r == Option::Some(&self->Arr_0),
    {
        match self {
            JsonValue::Arr(items) => Option::Some(items),
            _ => Option::None,
        }
    }

    /// An integer: an Int as itself, a Num truncated to whole units.
    pub fn as_int(&self) -> (r: Option<i64>)
        ensures
            (r is Some) <==> (self is Int || self is Num),
            self is Int ==> r == Option::Some(self->Int_0),
            self is Num ==> r == Option::Some(
                crate::fixed::trunc_div_spec(self->Num_0 as int, 65536) as i64,
            ),
    {
        match self {
            JsonValue::Int(v) => Option::Some(*v),
            JsonValue::Num(v) => {
                let w: i64 = if *v >= 0 {
                    *v / 65536
                } else if *v == i64::MIN {
                    proof {
                        assert(crate::fixed::abs_int(i64::MIN as int) == 9223372036854775808int);
                        assert(9223372036854775808int / 65536 == 140737488355328int);
                    }
                    -140737488355328
                } else {
                    -((-*v) / 65536)
                };
                Option::Some(w)
            },
            _ => Option::None,
        }
    }

    /// A nonnegative index that fits usize.
    pub fn as_index(&self) -> (r: Option<usize>)
        ensures
            r == index_of_value(*self),
    {
        match self.as_int() {
            Option::Some(v) => {
                if v >= 0 && (v as u64) < (usize::MAX as u64) {
                    Option::Some(v as usize)
                } else {
                    Option::None
                }
            },
            Option::None => Option::None,
        }
    }

    /// A scalar: a Num as itself, an Int scaled to Q47.16 with saturation.
    pub fn as_fx(&self) -> (r: Option<i64>)
        ensures
            r == fx_of_value(*self),
            (r is Some) <==> (self is Int || self is Num),
            self is Num ==> r == Option::Some(self->Num_0),
    {
        match self {
            JsonValue::Num(v) => Option::Some(*v),
            JsonValue::Int(v) => Option::Some(fx_mul(*v, FX_ONE * FX_ONE)),
            _ => Option::None,
        }
    }

    /// The bytes of a string value.
    pub fn as_str_bytes(&self) -> (r: Option<&Vec<u8>>)
        ensures
            (r is Some) <==> (self is Str),
            self is Str ==> r == Option::Some(&self->Str_0),
    {
        match self {
            JsonValue::Str(b) => Option::Some(b),
            _ => Option::None,
        }
    }

    /// A boolean value.
    pub fn as_bool(&self) -> (r: Option<bool>)
        ensures
            (r is Some) <==> (self is Bool),
            self is Bool ==> r == Option::Some(self->Bool_0),
    {
        match self {
            JsonValue::Bool(b) => Option::Some(*b),
            _ => Option::None,
        }
    }
}

/// Byte-slice equality.
pub fn bytes_eq(a: &[u8], b: &[u8]) -> (r: bool)
    ensures
        r <==> a@ == b@,
{
    if a.len() != b.len() {
        proof {
            assert(a@.len() != b@.len());
        }
        return false;
    }
    let mut i: usize = 0;
    while i < a.len()
        invariant
            i <= a@.len(),
            a@.len() == b@.len(),
            forall|j: int| 0 <= j < i ==> a@[j] == b@[j],
        decreases a@.len() - i,
    {
        if a[i] != b[i] {
            return false;
        }
        i = i + 1;
    }
    proof {
        assert(a@ =~= b@);
    }
    true
}

/// True for the four JSON whitespace bytes.
fn is_ws(b: u8) -> (r: bool)
    ensures
        r <==> (b == 0x20 || b == 0x09 || b == 0x0A || b == 0x0D),
{
    b == 0x20 || b == 0x09 || b == 0x0A || b == 0x0D
}

/// Advances past whitespace.
fn skip_ws(s: &Vec<u8>, pos: usize) -> (r: usize)
    requires
        pos <= s@.len(),
    ensures
        pos <= r <= s@.len(),
{
    let mut i: usize = pos;
    while i < s.len() && is_ws(s[i])
        invariant
            pos <= i <= s@.len(),
        decreases s@.len() - i,
    {
        i = i + 1;
    }
    i
}

/// 10^k.
pub open spec fn pow10s(k: nat) -> nat
    decreases k,
{
    if k == 0 {
        1
    } else {
        10 * pow10s((k - 1) as nat)
    }
}

/// pow10s is positive and monotone.
proof fn lemma_pow10s_le(i: nat, k: nat)
    requires
        i <= k,
    ensures
        1 <= pow10s(i) <= pow10s(k),
    decreases k,
{
    if k == 0 {
    } else if i < k {
        lemma_pow10s_le(i, (k - 1) as nat);
    } else {
        lemma_pow10s_le((i - 1) as nat, (k - 1) as nat);
    }
}

/// pow10s(17) written out.
proof fn lemma_pow10s_17()
    ensures
        pow10s(17) == 0x16345785D8A0000u64,
{
    reveal_with_fuel(pow10s, 18);
}

/// pow10s(12) written out.
proof fn lemma_pow10s_12()
    ensures
        pow10s(12) == 0xE8D4A51000u64,
{
    reveal_with_fuel(pow10s, 13);
}

/// 10^k as a u64 (k at most 17).
fn pow10_u64(k: u32) -> (r: u64)
    requires
        k <= 17,
    ensures
        r == pow10s(k as nat),
        r >= 1,
{
    let mut r: u64 = 1;
    let mut i: u32 = 0;
    proof {
        lemma_pow10s_17();
    }
    while i < k
        invariant
            i <= k <= 17,
            r == pow10s(i as nat),
            pow10s(17) == 0x16345785D8A0000u64,
        decreases k - i,
    {
        proof {
            lemma_pow10s_le((i + 1) as nat, 17);
        }
        r = r * 10;
        i = i + 1;
    }
    proof {
        lemma_pow10s_le(0, k as nat);
    }
    r
}

/// Appends the UTF-8 encoding of a code point (surrogates and values past
/// the Unicode range are refused by the caller).
fn push_utf8(out: &mut Vec<u8>, cp: u32)
    requires
        cp < 0x11_0000,
{
    if cp < 0x80 {
        out.push(cp as u8);
    } else if cp < 0x800 {
        out.push((0xC0 + cp / 64) as u8);
        out.push((0x80 + cp % 64) as u8);
    } else if cp < 0x1_0000 {
        out.push((0xE0 + cp / 4096) as u8);
        out.push((0x80 + (cp / 64) % 64) as u8);
        out.push((0x80 + cp % 64) as u8);
    } else {
        out.push((0xF0 + cp / 262144) as u8);
        out.push((0x80 + (cp / 4096) % 64) as u8);
        out.push((0x80 + (cp / 64) % 64) as u8);
        out.push((0x80 + cp % 64) as u8);
    }
}

/// The value of a hex digit byte, or 16 for any other byte.
fn hex_digit(b: u8) -> (r: u8)
    ensures
        r <= 16,
        (b == 0x30 ==> r == 0) && (b == 0x39 ==> r == 9),
{
    if 0x30 <= b && b <= 0x39 {
        b - 0x30
    } else if 0x41 <= b && b <= 0x46 {
        b - 0x41 + 10
    } else if 0x61 <= b && b <= 0x66 {
        b - 0x61 + 10
    } else {
        16
    }
}

/// Parses the escaped string whose opening quote sits at `pos`.
fn parse_string(s: &Vec<u8>, pos: usize) -> (r: Result<(Vec<u8>, usize), VrmError>)
    requires
        pos < s@.len(),
        s@[pos as int] == 0x22,
    ensures
        match r {
            Result::Ok((v, np)) => pos < np <= s@.len(),
            Result::Err(e) => e == VrmError::MalformedJson,
        },
{
    let n: usize = s.len();
    let mut out: Vec<u8> = Vec::new();
    let mut i: usize = pos + 1;
    while i < n
        invariant
            pos < i <= n,
            n == s@.len(),
        decreases s@.len() - i,
    {
        let b: u8 = s[i];
        if b == 0x22 {
            return Result::Ok((out, i + 1));
        } else if b == 0x5C {
            if n - i < 2 {
                return Result::Err(VrmError::MalformedJson);
            }
            let e: u8 = s[i + 1];
            if e == 0x22 || e == 0x5C || e == 0x2F {
                out.push(e);
                i = i + 2;
            } else if e == 0x62 {
                out.push(0x08);
                i = i + 2;
            } else if e == 0x66 {
                out.push(0x0C);
                i = i + 2;
            } else if e == 0x6E {
                out.push(0x0A);
                i = i + 2;
            } else if e == 0x72 {
                out.push(0x0D);
                i = i + 2;
            } else if e == 0x74 {
                out.push(0x09);
                i = i + 2;
            } else if e == 0x75 {
                if n - i < 6 {
                    return Result::Err(VrmError::MalformedJson);
                }
                let h0: u32 = hex_digit(s[i + 2]) as u32;
                let h1: u32 = hex_digit(s[i + 3]) as u32;
                let h2: u32 = hex_digit(s[i + 4]) as u32;
                let h3: u32 = hex_digit(s[i + 5]) as u32;
                if h0 >= 16 || h1 >= 16 || h2 >= 16 || h3 >= 16 {
                    return Result::Err(VrmError::MalformedJson);
                }
                let cp: u32 = h0 * 4096 + h1 * 256 + h2 * 16 + h3;
                if 0xD800 <= cp && cp < 0xDC00 {
                    if n - i < 12 || s[i + 6] != 0x5C || s[i + 7] != 0x75 {
                        return Result::Err(VrmError::MalformedJson);
                    }
                    let l0: u32 = hex_digit(s[i + 8]) as u32;
                    let l1: u32 = hex_digit(s[i + 9]) as u32;
                    let l2: u32 = hex_digit(s[i + 10]) as u32;
                    let l3: u32 = hex_digit(s[i + 11]) as u32;
                    if l0 >= 16 || l1 >= 16 || l2 >= 16 || l3 >= 16 {
                        return Result::Err(VrmError::MalformedJson);
                    }
                    let low: u32 = l0 * 4096 + l1 * 256 + l2 * 16 + l3;
                    if !(0xDC00 <= low && low < 0xE000) {
                        return Result::Err(VrmError::MalformedJson);
                    }
                    let combined: u32 = 0x1_0000 + (cp - 0xD800) * 1024 + (low - 0xDC00);
                    push_utf8(&mut out, combined);
                    i = i + 12;
                } else if 0xDC00 <= cp && cp < 0xE000 {
                    return Result::Err(VrmError::MalformedJson);
                } else {
                    push_utf8(&mut out, cp);
                    i = i + 6;
                }
            } else {
                return Result::Err(VrmError::MalformedJson);
            }
        } else {
            out.push(b);
            i = i + 1;
        }
    }
    Result::Err(VrmError::MalformedJson)
}

/// Parses the number token that starts at `pos`.
fn parse_number(s: &Vec<u8>, pos: usize) -> (r: Result<(JsonValue, usize), VrmError>)
    requires
        pos < s@.len(),
    ensures
        match r {
            Result::Ok((v, np)) => pos < np <= s@.len(),
            Result::Err(e) => e == VrmError::MalformedJson,
        },
{
    let n: usize = s.len();
    let mut i: usize = pos;
    let negative: bool = s[i] == 0x2D;
    if negative {
        i = i + 1;
    }
    let digit_start: usize = i;
    let mut acc: i128 = 0;
    while i < n && 0x30 <= s[i] && s[i] <= 0x39
        invariant
            pos <= i <= n,
            digit_start <= i,
            n == s@.len(),
            0 <= acc < 0x10_0000_0000_0000_0000_0000_0000i128,
        decreases s@.len() - i,
    {
        let d: i128 = (s[i] - 0x30) as i128;
        if acc < 0x1_0000_0000_0000_0000_0000_0000i128 {
            acc = acc * 10 + d;
        }
        i = i + 1;
    }
    if i == digit_start {
        return Result::Err(VrmError::MalformedJson);
    }
    let mut frac: u64 = 0;
    let mut frac_digits: u32 = 0;
    let mut has_frac: bool = false;
    if i < n && s[i] == 0x2E {
        has_frac = true;
        i = i + 1;
        let frac_start: usize = i;
        proof {
            lemma_pow10s_17();
        }
        while i < n && 0x30 <= s[i] && s[i] <= 0x39
            invariant
                pos < i <= n,
                n == s@.len(),
                frac_digits <= 12,
                frac < pow10s(frac_digits as nat),
                pow10s(17) == 0x16345785D8A0000u64,
            decreases s@.len() - i,
        {
            if frac_digits < 12 {
                proof {
                    lemma_pow10s_le((frac_digits + 1) as nat, 17);
                }
                frac = frac * 10 + ((s[i] - 0x30) as u64);
                frac_digits = frac_digits + 1;
            }
            i = i + 1;
        }
        if i == frac_start {
            return Result::Err(VrmError::MalformedJson);
        }
    }
    let mut exp: u32 = 0;
    let mut exp_negative: bool = false;
    let mut has_exp: bool = false;
    if i < n && (s[i] == 0x65 || s[i] == 0x45) {
        has_exp = true;
        i = i + 1;
        if i < n && (s[i] == 0x2B || s[i] == 0x2D) {
            exp_negative = s[i] == 0x2D;
            i = i + 1;
        }
        let exp_start: usize = i;
        while i < n && 0x30 <= s[i] && s[i] <= 0x39
            invariant
                pos < i <= n,
                n == s@.len(),
                exp <= 100,
            decreases s@.len() - i,
        {
            if exp < 100 {
                exp = exp * 10 + ((s[i] - 0x30) as u32);
                if exp > 100 {
                    exp = 100;
                }
            }
            i = i + 1;
        }
        if i == exp_start {
            return Result::Err(VrmError::MalformedJson);
        }
    }
    if !has_frac && !has_exp {
        let clamped: i64 = if acc > 0x7FFF_FFFF_FFFF_FFFFi128 {
            i64::MAX
        } else {
            acc as i64
        };
        let v: i64 = if negative {
            if clamped == i64::MAX && acc > 0x7FFF_FFFF_FFFF_FFFFi128 {
                i64::MIN
            } else {
                -clamped
            }
        } else {
            clamped
        };
        return Result::Ok((JsonValue::Int(v), i));
    }
    let acc_clamped: i128 = if acc > 0x7FFF_FFFF_FFFF_FFFFi128 {
        0x7FFF_FFFF_FFFF_FFFFi128
    } else {
        acc
    };
    let mut v: i64 = fx_q16_sat(acc_clamped * 65536 * 65536);
    if frac_digits > 0 {
        proof {
            lemma_pow10s_le(frac_digits as nat, 12);
            lemma_pow10s_12();
        }
        let scale: u64 = pow10_u64(frac_digits);
        let wide: u64 = frac * 65536;
        let frac_fx: u64 = wide / scale;
        proof {
            assert((wide as int) / (scale as int) <= wide as int) by (nonlinear_arith)
                requires
                    scale >= 1,
                    wide >= 0,
            ;
        }
        v = fx_add(v, frac_fx as i64);
    }
    let mut k: u32 = 0;
    while k < exp
        invariant
            k <= exp <= 100,
            -0x40_0000_0000 <= v <= 0x40_0000_0000,
        decreases exp - k,
    {
        if exp_negative {
            v = fx_div(v, 10 * FX_ONE);
        } else {
            v = fx_mul(v, 10 * FX_ONE);
        }
        k = k + 1;
    }
    if negative {
        v = -v;
    }
    Result::Ok((JsonValue::Num(v), i))
}

/// Parses the value that starts at `pos` (after leading whitespace).
fn parse_value(s: &Vec<u8>, pos: usize, depth: u32) -> (r: Result<(JsonValue, usize), VrmError>)
    requires
        pos <= s@.len(),
    ensures
        match r {
            Result::Ok((v, np)) => pos < np <= s@.len(),
            Result::Err(e) => e == VrmError::MalformedJson,
        },
    decreases depth, s@.len() - pos, 0nat,
{
    let start: usize = skip_ws(s, pos);
    if start >= s.len() {
        return Result::Err(VrmError::MalformedJson);
    }
    let b: u8 = s[start];
    if b == 0x7B {
        if depth == 0 {
            return Result::Err(VrmError::MalformedJson);
        }
        match parse_object_body(s, start + 1, depth - 1) {
            Result::Ok((v, np)) => Result::Ok((v, np)),
            Result::Err(e) => Result::Err(e),
        }
    } else if b == 0x5B {
        if depth == 0 {
            return Result::Err(VrmError::MalformedJson);
        }
        match parse_array_body(s, start + 1, depth - 1) {
            Result::Ok((v, np)) => Result::Ok((v, np)),
            Result::Err(e) => Result::Err(e),
        }
    } else if b == 0x22 {
        match parse_string(s, start) {
            Result::Ok((v, np)) => Result::Ok((JsonValue::Str(v), np)),
            Result::Err(e) => Result::Err(e),
        }
    } else if b == 0x74 {
        if s.len() - start >= 4 && s[start + 1] == 0x72 && s[start + 2] == 0x75 && s[start + 3]
            == 0x65 {
            Result::Ok((JsonValue::Bool(true), start + 4))
        } else {
            Result::Err(VrmError::MalformedJson)
        }
    } else if b == 0x66 {
        if s.len() - start >= 5 && s[start + 1] == 0x61 && s[start + 2] == 0x6C && s[start + 3]
            == 0x73 && s[start + 4] == 0x65 {
            Result::Ok((JsonValue::Bool(false), start + 5))
        } else {
            Result::Err(VrmError::MalformedJson)
        }
    } else if b == 0x6E {
        if s.len() - start >= 4 && s[start + 1] == 0x75 && s[start + 2] == 0x6C && s[start + 3]
            == 0x6C {
            Result::Ok((JsonValue::Null, start + 4))
        } else {
            Result::Err(VrmError::MalformedJson)
        }
    } else if b == 0x2D || (0x30 <= b && b <= 0x39) {
        parse_number(s, start)
    } else {
        Result::Err(VrmError::MalformedJson)
    }
}

/// Parses the members of an object, from just after its opening brace.
fn parse_object_body(s: &Vec<u8>, pos: usize, depth: u32) -> (r: Result<
    (JsonValue, usize),
    VrmError,
>)
    requires
        pos <= s@.len(),
        pos >= 1,
    ensures
        match r {
            Result::Ok((v, np)) => pos <= np <= s@.len(),
            Result::Err(e) => e == VrmError::MalformedJson,
        },
    decreases depth, s@.len() - pos, 1nat,
{
    let mut pairs: Vec<(Vec<u8>, JsonValue)> = Vec::new();
    let mut cur: usize = skip_ws(s, pos);
    if cur < s.len() && s[cur] == 0x7D {
        return Result::Ok((JsonValue::Obj(pairs), cur + 1));
    }
    while true
        invariant
            pos <= cur <= s@.len(),
        decreases s@.len() - cur,
    {
        let key_start: usize = skip_ws(s, cur);
        if key_start >= s.len() || s[key_start] != 0x22 {
            return Result::Err(VrmError::MalformedJson);
        }
        let key: Vec<u8>;
        let after_key: usize;
        match parse_string(s, key_start) {
            Result::Ok((k, np)) => {
                key = k;
                after_key = np;
            },
            Result::Err(e) => {
                return Result::Err(e);
            },
        }
        let colon: usize = skip_ws(s, after_key);
        if colon >= s.len() || s[colon] != 0x3A {
            return Result::Err(VrmError::MalformedJson);
        }
        let value: JsonValue;
        let after_value: usize;
        match parse_value(s, colon + 1, depth) {
            Result::Ok((v, np)) => {
                value = v;
                after_value = np;
            },
            Result::Err(e) => {
                return Result::Err(e);
            },
        }
        pairs.push((key, value));
        let sep: usize = skip_ws(s, after_value);
        if sep < s.len() && s[sep] == 0x2C {
            cur = sep + 1;
        } else if sep < s.len() && s[sep] == 0x7D {
            return Result::Ok((JsonValue::Obj(pairs), sep + 1));
        } else {
            return Result::Err(VrmError::MalformedJson);
        }
    }
    Result::Err(VrmError::MalformedJson)
}

/// Parses the elements of an array, from just after its opening bracket.
fn parse_array_body(s: &Vec<u8>, pos: usize, depth: u32) -> (r: Result<
    (JsonValue, usize),
    VrmError,
>)
    requires
        pos <= s@.len(),
        pos >= 1,
    ensures
        match r {
            Result::Ok((v, np)) => pos <= np <= s@.len(),
            Result::Err(e) => e == VrmError::MalformedJson,
        },
    decreases depth, s@.len() - pos, 1nat,
{
    let mut items: Vec<JsonValue> = Vec::new();
    let mut cur: usize = skip_ws(s, pos);
    if cur < s.len() && s[cur] == 0x5D {
        return Result::Ok((JsonValue::Arr(items), cur + 1));
    }
    while true
        invariant
            pos <= cur <= s@.len(),
        decreases s@.len() - cur,
    {
        let value: JsonValue;
        let after_value: usize;
        match parse_value(s, cur, depth) {
            Result::Ok((v, np)) => {
                value = v;
                after_value = np;
            },
            Result::Err(e) => {
                return Result::Err(e);
            },
        }
        items.push(value);
        let sep: usize = skip_ws(s, after_value);
        if sep < s.len() && s[sep] == 0x2C {
            cur = sep + 1;
        } else if sep < s.len() && s[sep] == 0x5D {
            return Result::Ok((JsonValue::Arr(items), sep + 1));
        } else {
            return Result::Err(VrmError::MalformedJson);
        }
    }
    Result::Err(VrmError::MalformedJson)
}

/// Parses one number token spanning the whole input, as a Q47.16 scalar.
pub fn parse_scalar_token(bytes: &Vec<u8>) -> (r: Option<i64>)
{
    if bytes.len() == 0 {
        return Option::None;
    }
    let b: u8 = bytes[0];
    if !(b == 0x2D || (0x30 <= b && b <= 0x39)) {
        return Option::None;
    }
    match parse_number(bytes, 0) {
        Result::Ok((v, np)) => {
            if np != bytes.len() {
                return Option::None;
            }
            match v.as_fx() {
                Option::Some(x) => Option::Some(x),
                Option::None => Option::None,
            }
        },
        Result::Err(_) => Option::None,
    }
}

/// Parses one unsigned integer token spanning the whole input.
pub fn parse_u32_token(bytes: &Vec<u8>) -> (r: Option<u32>)
{
    if bytes.len() == 0 {
        return Option::None;
    }
    let b: u8 = bytes[0];
    if !(0x30 <= b && b <= 0x39) {
        return Option::None;
    }
    match parse_number(bytes, 0) {
        Result::Ok((v, np)) => {
            if np != bytes.len() {
                return Option::None;
            }
            match v {
                JsonValue::Int(x) => {
                    if 0 <= x && x <= u32::MAX as i64 {
                        Option::Some(x as u32)
                    } else {
                        Option::None
                    }
                },
                _ => Option::None,
            }
        },
        Result::Err(_) => Option::None,
    }
}

/// Parses a whole JSON document: one value with only whitespace around it.
pub fn parse_json(bytes: &Vec<u8>) -> (r: Result<JsonValue, VrmError>)
    ensures
        match r {
            Result::Ok(_) => true,
            Result::Err(e) => e == VrmError::MalformedJson,
        },
{
    match parse_value(bytes, 0, MAX_DEPTH) {
        Result::Ok((v, np)) => {
            let rest: usize = skip_ws(bytes, np);
            if rest == bytes.len() {
                Result::Ok(v)
            } else {
                Result::Err(VrmError::MalformedJson)
            }
        },
        Result::Err(e) => Result::Err(e),
    }
}

} // verus!
