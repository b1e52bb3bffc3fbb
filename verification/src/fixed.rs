//! Q47.16 fixed-point scalars.
//!
//! A scalar is an `i64` holding `value * 65536`. This is the library's
//! substitute for the container's IEEE-754 single-precision values: decoding
//! a 32-bit pattern into this representation is exact integer arithmetic
//! (`fx_of_f32_bits`), and every later computation on scalars stays provable.

use vstd::prelude::*;

verus! {

/// A Q47.16 fixed-point scalar: the represented value times 65536.
pub type Fx = i64;

/// The fixed-point representation of 1.
pub const FX_ONE: i64 = 65536;

/// Magnitude bound kept by decoded scalars: 2^38 raw, i.e. a value of 2^22.
pub const FX_RAW_MAX: i64 = 0x40_0000_0000;

/// 2^k.
pub open spec fn pow2(k: nat) -> nat
    decreases k,
{
    if k == 0 {
        1
    } else {
        2 * pow2((k - 1) as nat)
    }
}

/// Magnitude of an integer.
pub open spec fn abs_int(a: int) -> int {
    if a < 0 {
        -a
    } else {
        a
    }
}

/// 2^k as an executable u64.
pub fn pow2_u64(k: u64) -> (r: u64)
    requires
        k < 64,
        pow2(k as nat) <= u64::MAX,
    ensures
        r == pow2(k as nat),
{
    let mut r: u64 = 1;
    let mut i: u64 = 0;
    while i < k
        invariant
            i <= k,
            k < 64,
            r == pow2(i as nat),
            pow2(k as nat) <= u64::MAX,
        decreases k - i,
    {
        proof {
            lemma_pow2_increases((i + 1) as nat, k as nat);
        }
        r = r * 2;
        i = i + 1;
    }
    r
}

/// pow2 is positive.
pub proof fn lemma_pow2_pos(k: nat)
    ensures
        pow2(k) >= 1,
    decreases k,
{
    if k > 0 {
        lemma_pow2_pos((k - 1) as nat);
    }
}

/// pow2 is monotone (weakly) in its argument.
pub proof fn lemma_pow2_increases(i: nat, k: nat)
    requires
        i <= k,
    ensures
        pow2(i) <= pow2(k),
        pow2(i) >= 1,
    decreases k,
{
    lemma_pow2_pos(i);
    if i < k {
        lemma_pow2_increases(i, (k - 1) as nat);
    }
}

/// Quotient truncated toward zero (Rust's executable division).
pub open spec fn trunc_div_spec(n: int, d: int) -> int
    recommends
        d != 0,
{
    if (n < 0) != (d < 0) {
        -(abs_int(n) / abs_int(d))
    } else {
        abs_int(n) / abs_int(d)
    }
}

/// Saturation to the scalar range [-FX_RAW_MAX, FX_RAW_MAX].
pub open spec fn sat_spec(n: int) -> int {
    if n > 0x40_0000_0000 {
        0x40_0000_0000
    } else if n < -0x40_0000_0000 {
        -0x40_0000_0000
    } else {
        n
    }
}

/// Saturating fixed-point product.
pub open spec fn fx_mul_spec(a: int, b: int) -> int {
    sat_spec(trunc_div_spec(a * b, 65536))
}

/// Saturating fixed-point quotient.
pub open spec fn fx_div_spec(a: int, b: int) -> int
    recommends
        b != 0,
{
    sat_spec(trunc_div_spec(a * 65536, b))
}

/// Clamp to [-lim, lim].
pub open spec fn clamp_spec(x: int, lim: int) -> int
    recommends
        lim >= 0,
{
    if x > lim {
        lim
    } else if x < -lim {
        -lim
    } else {
        x
    }
}

/// Divides a wide intermediate by 65536 and saturates to the scalar range.
pub fn fx_q16_sat(n: i128) -> (r: i64)
    requires
        n > i128::MIN,
    ensures
        r == sat_spec(trunc_div_spec(n as int, 65536)),
        abs_int(r as int) <= FX_RAW_MAX,
{
    let neg: bool = n < 0;
    let nm: u128 = if neg {
        (-n) as u128
    } else {
        n as u128
    };
    let mag: u128 = nm / 65536;
    let m2: u64 = if mag > 0x40_0000_0000 {
        0x40_0000_0000
    } else {
        mag as u64
    };
    if neg {
        -(m2 as i64)
    } else {
        m2 as i64
    }
}

/// Saturating fixed-point multiplication.
pub fn fx_mul(a: i64, b: i64) -> (r: i64)
    ensures
        r == fx_mul_spec(a as int, b as int),
        abs_int(r as int) <= FX_RAW_MAX,
{
    proof {
        assert(abs_int((a as int) * (b as int)) <= 0x8000_0000_0000_0000i128 * 0x8000_0000_0000_0000i128)
            by (nonlinear_arith)
            requires
                abs_int(a as int) <= 0x8000_0000_0000_0000,
                abs_int(b as int) <= 0x8000_0000_0000_0000,
        ;
    }
    fx_q16_sat((a as i128) * (b as i128))
}

/// Saturating fixed-point division.
pub fn fx_div(a: i64, b: i64) -> (r: i64)
    requires
        b != 0,
    ensures
        r == fx_div_spec(a as int, b as int),
        abs_int(r as int) <= FX_RAW_MAX,
{
    let neg: bool = (a < 0) != (b < 0);
    let am: u128 = if a >= 0 {
        a as u128
    } else {
        if a == i64::MIN {
            0x8000_0000_0000_0000u128
        } else {
            (-a) as u128
        }
    };
    let bm: u128 = if b >= 0 {
        b as u128
    } else {
        if b == i64::MIN {
            0x8000_0000_0000_0000u128
        } else {
            (-b) as u128
        }
    };
    let mag: u128 = am * 65536 / bm;
    proof {
        assert((am as int) * 65536 / (bm as int) <= (am as int) * 65536) by (nonlinear_arith)
            requires
                bm >= 1,
                am <= 0x8000_0000_0000_0000u128,
        ;
    }
    let m2: u64 = if mag > 0x40_0000_0000 {
        0x40_0000_0000
    } else {
        mag as u64
    };
    if neg {
        -(m2 as i64)
    } else {
        m2 as i64
    }
}

/// Saturating addition of scalars.
pub fn fx_add(a: i64, b: i64) -> (r: i64)
    ensures
        r == sat_spec(a + b),
        abs_int(r as int) <= FX_RAW_MAX,
{
    let wide: i128 = (a as i128) + (b as i128);
    if wide > 0x40_0000_0000 {
        0x40_0000_0000
    } else if wide < -0x40_0000_0000 {
        -0x40_0000_0000
    } else {
        wide as i64
    }
}

/// Saturating subtraction of scalars.
pub fn fx_sub(a: i64, b: i64) -> (r: i64)
    ensures
        r == sat_spec(a - b),
        abs_int(r as int) <= FX_RAW_MAX,
{
    let wide: i128 = (a as i128) - (b as i128);
    if wide > 0x40_0000_0000 {
        0x40_0000_0000
    } else if wide < -0x40_0000_0000 {
        -0x40_0000_0000
    } else {
        wide as i64
    }
}

/// Clamp a scalar to [-lim, lim].
pub fn fx_clamp(x: i64, lim: i64) -> (r: i64)
    requires
        lim >= 0,
    ensures
        r == clamp_spec(x as int, lim as int),
        abs_int(r as int) <= lim,
{
    if x > lim {
        lim
    } else if x < -lim {
        -lim
    } else {
        x
    }
}

/// Value (times 65536) denoted by an IEEE-754 single-precision bit pattern,
/// truncated toward zero and saturated to `FX_RAW_MAX`. A NaN pattern denotes
/// 0; an infinity saturates with its sign.
pub open spec fn fx_of_f32_bits_spec(b: u32) -> int {
    let sgn: int = if b >= 0x8000_0000 {
        -1
    } else {
        1
    };
    let e: int = ((b as int) / 0x80_0000) % 256;
    let m: int = (b as int) % 0x80_0000;
    if e == 255 {
        if m != 0 {
            0
        } else {
            sgn * 0x40_0000_0000
        }
    } else {
        let mag: int = f32_mag_spec(b);
        if mag > 0x40_0000_0000 {
            sgn * 0x40_0000_0000
        } else {
            sgn * mag
        }
    }
}

/// Decodes an IEEE-754 single-precision bit pattern into a Q47.16 scalar.
pub fn fx_of_f32_bits(b: u32) -> (r: i64)
    ensures
        r == fx_of_f32_bits_spec(b),
        abs_int(r as int) <= FX_RAW_MAX,
{
    let e: u32 = (b / 0x80_0000) % 256;
    let m: u32 = b % 0x80_0000;
    let negative: bool = b >= 0x8000_0000;
    let mag: u64;
    if e == 255 {
        if m != 0 {
            mag = 0;
        } else {
            mag = 0x40_0000_0000;
        }
    } else {
        let mm: u64 = if e == 0 {
            m as u64
        } else {
            (m + 0x80_0000) as u64
        };
        let raw: u64;
        if e >= 134 {
            let sh: u32 = e - 134;
            if sh >= 15 {
                proof {
                    lemma_pow2_increases(15, sh as nat);
                    lemma_pow2_val_15();
                    assert(mm * pow2(sh as nat) >= 0x80_0000 * 0x8000) by (nonlinear_arith)
                        requires
                            mm >= 0x80_0000,
                            pow2(sh as nat) >= 0x8000,
                    ;
                }
                raw = 0x40_0000_0000;
                assert(raw as int == if f32_mag_spec(b) > 0x40_0000_0000 { 0x40_0000_0000int } else { f32_mag_spec(b) });
            } else {
                proof {
                    lemma_pow2_increases(sh as nat, 14);
                    lemma_pow2_val_14();
                    assert(mm * pow2(sh as nat) <= 0xFF_FFFF * 0x4000) by (nonlinear_arith)
                        requires
                            mm <= 0xFF_FFFF,
                            1 <= pow2(sh as nat) <= 0x4000,
                    ;
                }
                let p: u64 = pow2_u64(sh as u64);
                let big: u64 = mm * p;
                if big > 0x40_0000_0000 {
                    raw = 0x40_0000_0000;
                } else {
                    raw = big;
                }
                assert(raw as int == if f32_mag_spec(b) > 0x40_0000_0000 { 0x40_0000_0000int } else { f32_mag_spec(b) });
            }
        } else {
            let sh: u32 = 134 - e;
            if sh >= 24 {
                proof {
                    lemma_pow2_increases(24, sh as nat);
                    lemma_pow2_val_24();
                    assert((mm as int) / (pow2(sh as nat) as int) == 0) by (nonlinear_arith)
                        requires
                            0 <= (mm as int) < pow2(sh as nat),
                    ;
                }
                raw = 0;
            } else {
                proof {
                    lemma_pow2_increases(0, sh as nat);
                    lemma_pow2_increases(sh as nat, 23);
                    lemma_pow2_val_23();
                }
                let p: u64 = pow2_u64(sh as u64);
                raw = mm / p;
                proof {
                    assert((mm as int) / (p as int) <= mm as int) by (nonlinear_arith)
                        requires
                            p >= 1,
                            mm >= 0,
                    ;
                }
            }
            assert(raw as int == if f32_mag_spec(b) > 0x40_0000_0000 { 0x40_0000_0000int } else { f32_mag_spec(b) });
        }
        mag = raw;
        proof {
            let fm: int = f32_mag_spec(b);
            let sgn: int = if b >= 0x8000_0000 {
                -1int
            } else {
                1int
            };
            assert(e as int == ((b as int) / 0x80_0000) % 256);
            assert(e as int != 255);
            if fm > 0x40_0000_0000 {
                assert(raw == 0x40_0000_0000);
                assert(fx_of_f32_bits_spec(b) == sgn * 0x40_0000_0000);
            } else {
                assert(raw as int == fm);
                assert(fx_of_f32_bits_spec(b) == sgn * fm);
            }
            assert(fx_of_f32_bits_spec(b) == if negative { -(mag as int) } else { mag as int });
        }
    }
    if negative {
        -(mag as i64)
    } else {
        mag as i64
    }
}

/// The unsaturated magnitude (times 65536) denoted by a finite bit pattern.
pub open spec fn f32_mag_spec(b: u32) -> int {
    let e: int = ((b as int) / 0x80_0000) % 256;
    let m: int = (b as int) % 0x80_0000;
    let mm: int = if e == 0 {
        m
    } else {
        m + 0x80_0000
    };
    if e >= 134 {
        mm * pow2((e - 134) as nat)
    } else {
        mm / pow2((134 - e) as nat) as int
    }
}

/// pow2(14) written out.
proof fn lemma_pow2_val_14()
    ensures
        pow2(14) == 0x4000,
{
    reveal_with_fuel(pow2, 15);
}

/// pow2(15) written out.
proof fn lemma_pow2_val_15()
    ensures
        pow2(15) == 0x8000,
{
    reveal_with_fuel(pow2, 16);
}

/// pow2(23) written out.
proof fn lemma_pow2_val_23()
    ensures
        pow2(23) == 0x80_0000,
{
    reveal_with_fuel(pow2, 24);
}

/// pow2(24) written out.
proof fn lemma_pow2_val_24()
    ensures
        pow2(24) == 0x100_0000,
{
    reveal_with_fuel(pow2, 25);
}

/// Floor of the square root, as a specification.
pub open spec fn sqrt_floor(n: nat) -> nat
    decreases n,
{
    if n == 0 {
        0
    } else {
        let p = sqrt_floor((n - 1) as nat);
        if (p + 1) * (p + 1) <= n {
            p + 1
        } else {
            p
        }
    }
}

/// sqrt_floor brackets its argument between consecutive squares.
pub proof fn lemma_sqrt_floor(n: nat)
    ensures
        sqrt_floor(n) * sqrt_floor(n) <= n,
        n < (sqrt_floor(n) + 1) * (sqrt_floor(n) + 1),
    decreases n,
{
    if n == 0 {
        assert(sqrt_floor(n) == 0);
        assert(sqrt_floor(n) * sqrt_floor(n) <= n);
        assert(n < (sqrt_floor(n) + 1) * (sqrt_floor(n) + 1)) by (nonlinear_arith)
            requires
                sqrt_floor(n) == 0,
                n == 0,
        ;
    }
    if n > 0 {
        lemma_sqrt_floor((n - 1) as nat);
        let p = sqrt_floor((n - 1) as nat);
        assert(sqrt_floor(n) == if (p + 1) * (p + 1) <= n {
            p + 1
        } else {
            p
        });
        if (p + 1) * (p + 1) <= n {
            assert(sqrt_floor(n) == p + 1);
            assert((p + 2) * (p + 2) > (p + 1) * (p + 1)) by (nonlinear_arith);
            assert(n <= (p + 1) * (p + 1));
            assert(n < (p + 2) * (p + 2));
            assert(sqrt_floor(n) * sqrt_floor(n) <= n) by (nonlinear_arith)
                requires
                    sqrt_floor(n) == p + 1,
                    (p + 1) * (p + 1) <= n,
            ;
            assert(n < (sqrt_floor(n) + 1) * (sqrt_floor(n) + 1)) by (nonlinear_arith)
                requires
                    sqrt_floor(n) == p + 1,
                    n < (p + 2) * (p + 2),
            ;
        } else {
            assert(sqrt_floor(n) == p);
            assert(p * p <= n - 1);
            assert(sqrt_floor(n) * sqrt_floor(n) <= n) by (nonlinear_arith)
                requires
                    sqrt_floor(n) == p,
                    p * p <= n,
            ;
            assert(n < (sqrt_floor(n) + 1) * (sqrt_floor(n) + 1)) by (nonlinear_arith)
                requires
                    sqrt_floor(n) == p,
                    n < (p + 1) * (p + 1),
            ;
        }
    }
}

/// The bracket property determines sqrt_floor uniquely.
pub proof fn lemma_sqrt_floor_unique(n: nat, r: nat)
    requires
        r * r <= n,
        n < (r + 1) * (r + 1),
    ensures
        r == sqrt_floor(n),
{
    lemma_sqrt_floor(n);
    let s = sqrt_floor(n);
    if r < s {
        assert((r + 1) * (r + 1) <= s * s) by (nonlinear_arith)
            requires
                r + 1 <= s,
        ;
    }
    if s < r {
        assert((s + 1) * (s + 1) <= r * r) by (nonlinear_arith)
            requires
                s + 1 <= r,
        ;
    }
}

/// Floor of the square root.
pub fn isqrt_u128(n: u128) -> (r: u64)
    ensures
        r == sqrt_floor(n as nat),
        (r as int) * (r as int) <= n as int,
        (n as int) < ((r as int) + 1) * ((r as int) + 1),
{
    if n >= (u64::MAX as u128) * (u64::MAX as u128) {
        proof {
            assert(((u64::MAX as int) + 1) * ((u64::MAX as int) + 1) > u128::MAX as int)
                by (nonlinear_arith);
        }
        proof {
            lemma_sqrt_floor_unique(n as nat, u64::MAX as nat);
        }
        return u64::MAX;
    }
    let mut lo: u64 = 0;
    let mut hi: u64 = u64::MAX - 1;
    while lo < hi
        invariant
            (lo as int) * (lo as int) <= n as int,
            (n as int) < ((hi as int) + 1) * ((hi as int) + 1),
            lo <= hi,
            hi <= u64::MAX - 1,
        decreases hi - lo,
    {
        let mid: u64 = lo + (hi - lo + 1) / 2;
        let fits: bool = match (mid as u128).checked_mul(mid as u128) {
            Some(sq) => sq <= n,
            None => false,
        };
        if fits {
            lo = mid;
        } else {
            proof {
                if (mid as int) * (mid as int) > u128::MAX as int {
                    assert((n as int) < (mid as int) * (mid as int));
                }
            }
            hi = mid - 1;
        }
    }
    proof {
        lemma_sqrt_floor_unique(n as nat, lo as nat);
    }
    lo
}

} // verus!
