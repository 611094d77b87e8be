//! Exact integer model of the single-precision arithmetic that the stat
//! formulas of the game use: a value is turned into single precision, scaled
//! by a constant, and truncated back to a 32-bit integer.
//!
//! A single-precision number holds 24 significant bits. Every quantity the
//! game scales is an integer times a power of two, so rounding to the nearest
//! representable number (ties to even) is rounding an integer to 24
//! significant bits; `round24` states that, and the functions below compose it.
use vstd::prelude::*;
use vstd::arithmetic::power2::*;
use vstd::arithmetic::div_mod::*;
use vstd::arithmetic::mul::*;

verus! {

/// 2^24: the first integer that needs more than 24 significant bits.
pub open spec fn sig_limit() -> nat {
    0x100_0000
}

/// How many low-order bits of `n` fall outside its 24 leading significant bits.
pub open spec fn shift_for(n: nat) -> nat
    decreases n,
{
    if n < sig_limit() {
        0
    } else {
        1 + shift_for(n / 2)
    }
}

/// `n` rounded to 24 significant bits, ties to even: the magnitude of the
/// nearest single-precision number to an integer `n`.
pub open spec fn round24(n: nat) -> nat {
    let k = shift_for(n);
    if k == 0 {
        n
    } else {
        let unit = pow2(k);
        let q = n / unit;
        let r = n % unit;
        let half = pow2((k - 1) as nat);
        if r > half || (r == half && q % 2 == 1) {
            (q + 1) * unit
        } else {
            q * unit
        }
    }
}

/// Truncation toward zero of a value `mag / 2^shift` (negative when `neg`),
/// saturated to the range of a 32-bit integer, as a conversion to `i32` does.
/// `mag` is taken as exact: the caller rounds it.
pub open spec fn trunc_i32(neg: bool, mag: nat, shift: nat) -> int {
    let t = mag / pow2(shift);
    if neg {
        if t >= 0x8000_0000 {
            -0x8000_0000
        } else {
            -(t as int)
        }
    } else {
        if t >= 0x7fff_ffff {
            0x7fff_ffff
        } else {
            t as int
        }
    }
}

pub open spec fn abs(x: int) -> nat {
    if x < 0 {
        (-x) as nat
    } else {
        x as nat
    }
}

/// `x` converted to single precision, multiplied by the single-precision
/// constant `c / 2^23`, and truncated to a 32-bit integer.
pub open spec fn scale_single(x: int, c: nat) -> int {
    trunc_i32(x < 0, round24(round24(abs(x)) * c), 23)
}

/// The single-precision value of 13/10 is 10905190 / 2^23.
pub const THIRTEEN_TENTHS: u32 = 10905190;

/// 5/2 is exactly 20971520 / 2^23.
pub const FIVE_HALVES: u32 = 20971520;

/// `base * (1/2 + level/2)` computed in single precision and truncated:
/// `level` is rounded to single precision, `1 + level` is rounded again
/// (this is the sum `1/2 + level/2` scaled by two), the product with the
/// rounded `base` is rounded, and the result is halved and truncated.
pub open spec fn level_scaled(base: int, level: int) -> int {
    let lv = if level < 0 {
        -(round24(abs(level)) as int)
    } else {
        round24(abs(level)) as int
    };
    let m = 1 + lv;
    let neg = (base < 0) != (m < 0);
    trunc_i32(neg, round24(round24(abs(base)) * round24(abs(m))), 1)
}

/// A number at or above 2^24 holds at least 2^23 of its rounding units.
proof fn lemma_shift_unit(n: nat)
    requires
        n >= sig_limit(),
    ensures
        pow2(shift_for(n)) * 0x80_0000 <= n,
    decreases n,
{
    lemma2_to64();
    lemma_pow2_unfold(shift_for(n));
    if n / 2 < sig_limit() {
        assert(shift_for(n / 2) == 0);
    } else {
        lemma_shift_unit(n / 2);
    }
}

/// Rounding to 24 significant bits moves a number by at most 2^-24 of it.
pub proof fn lemma_round24_error(n: nat)
    ensures
        0x100_0000 * round24(n) <= 0x100_0000 * n + n,
        0x100_0000 * n <= 0x100_0000 * round24(n) + n,
{
    let k = shift_for(n);
    if k > 0 {
        lemma_shift_unit(n);
        lemma_pow2_unfold(k);
        lemma_pow2_pos((k - 1) as nat);
        let unit = pow2(k);
        let half = pow2((k - 1) as nat);
        let q = n / unit;
        let r = n % unit;
        lemma_fundamental_div_mod(n as int, unit as int);
        lemma_mod_bound(n as int, unit as int);
        assert((q + 1) * unit == q * unit + unit) by {
            lemma_mul_is_distributive_add_other_way(unit as int, q as int, 1);
        }
        assert(0x100_0000 * half <= n);
    }
}

/// Rounds `n` to 24 significant bits, ties to even.
pub fn round24_exec(n: u128) -> (r: u128)
    requires
        n < 0x4000_0000_0000_0000_0000_0000_0000_0000,
    ensures
        r == round24(n as nat),
        r <= 2 * n,
{
    let mut m: u128 = n;
    let ghost mut k: nat = 0;
    let mut unit: u128 = 1;
    proof {
        lemma2_to64();
    }
    while m >= 0x100_0000
        invariant
            n < 0x4000_0000_0000_0000_0000_0000_0000_0000,
            shift_for(n as nat) == k + shift_for(m as nat),
            unit == pow2(k),
            m == n as nat / pow2(k),
            m * unit <= n,
            k > 0 ==> m >= 1,
            unit >= 1,
        decreases m,
    {
        proof {
            lemma_pow2_unfold(k + 1);
            lemma_pow2_pos(k);
            lemma_div_denominator(n as int, pow2(k) as int, 2);
            assert(unit * 0x100_0000 <= n) by {
                lemma_mul_inequality(0x100_0000, m as int, unit as int);
                lemma_mul_is_commutative(m as int, unit as int);
            }
            assert((m / 2) * (unit * 2) <= m * unit) by {
                lemma_fundamental_div_mod(m as int, 2);
                lemma_mul_is_associative((m / 2) as int, 2, unit as int);
                lemma_mul_is_commutative((m / 2) as int, 2);
                lemma_mul_is_associative(2, (m / 2) as int, unit as int);
                lemma_mul_inequality(2 * (m / 2), m as int, unit as int);
            }
        }
        m = m / 2;
        unit = unit * 2;
        proof {
            k = k + 1;
        }
    }
    if unit == 1 {
        proof {
            if k > 0 {
                lemma_pow2_unfold(k);
                lemma_pow2_pos((k - 1) as nat);
            }
        }
        return n;
    }
    let q = m;
    let r = n % unit;
    let half = unit / 2;
    proof {
        lemma_pow2_unfold(k);
        lemma_pow2_pos((k - 1) as nat);
        assert(half == pow2((k - 1) as nat));
        lemma_fundamental_div_mod(n as int, unit as int);
        lemma_mod_bound(n as int, unit as int);
        assert(q * unit <= n);
        assert(unit <= n) by {
            lemma_mul_inequality(1, q as int, unit as int);
        }
        assert((q + 1) * unit == q * unit + unit) by {
            lemma_mul_is_distributive_add_other_way(unit as int, q as int, 1);
        }
    }
    if r > half || (r == half && q % 2 == 1) {
        (q + 1) * unit
    } else {
        q * unit
    }
}

/// Truncation toward zero of `mag / 2^shift`, saturated to 32 bits.
fn trunc_i32_exec(neg: bool, mag: u128, shift: u32) -> (r: i32)
    requires
        shift == 1 || shift == 23,
    ensures
        r == trunc_i32(neg, mag as nat, shift as nat),
{
    proof {
        lemma2_to64();
    }
    let d: u128 = if shift == 1 { 2 } else { 0x80_0000 };
    let t = mag / d;
    if neg {
        if t >= 0x8000_0000 {
            i32::MIN
        } else {
            -(t as i64) as i32
        }
    } else {
        if t >= 0x7fff_ffff {
            i32::MAX
        } else {
            t as i32
        }
    }
}

/// Magnitude of a 64-bit integer, widened.
fn abs_exec(x: i64) -> (r: u128)
    ensures
        r == abs(x as int),
{
    if x < 0 {
        (-(x as i128)) as u128
    } else {
        x as u128
    }
}

/// `x` scaled by the single-precision constant `c / 2^23` and truncated,
/// exactly as single-precision arithmetic computes it.
pub fn scale_single_exec(x: i32, c: u32) -> (r: i32)
    ensures
        r == scale_single(x as int, c as nat),
{
    let mag = abs_exec(x as i64);
    let xr = round24_exec(mag);
    assert(xr * (c as u128) < 0x1_0000_0000_0000_0000_0000) by (nonlinear_arith)
        requires
            xr <= 0x1_0000_0000,
            c < 0x1_0000_0000,
    ;
    let p = xr * (c as u128);
    let pr = round24_exec(p);
    trunc_i32_exec(x < 0, pr, 23)
}

/// `base * (1/2 + level/2)` as single-precision arithmetic computes it,
/// truncated to a 32-bit integer.
pub fn level_scaled_exec(base: i32, level: i32) -> (r: i32)
    ensures
        r == level_scaled(base as int, level as int),
{
    let lr = round24_exec(abs_exec(level as i64));
    let lv: i128 = if level < 0 { -(lr as i128) } else { lr as i128 };
    let m: i128 = 1 + lv;
    let mmag: u128 = if m < 0 { (-m) as u128 } else { m as u128 };
    let mr = round24_exec(mmag);
    let br = round24_exec(abs_exec(base as i64));
    assert(br * mr < 0x1_0000_0000_0000_0000_0000) by (nonlinear_arith)
        requires
            br <= 0x1_0000_0000,
            mr <= 0x2_0000_0004,
    ;
    let p = br * mr;
    let pr = round24_exec(p);
    trunc_i32_exec((base < 0) != (m < 0), pr, 1)
}

} // verus!
