//! Bit-level model of IEEE-754 single-precision values, and a verified
//! multiply of such a value by an unsigned integer with round-to-nearest,
//! ties to even.
//!
//! The camera codec has to scale float components (given as raw bit
//! patterns) by the volume edge length. This module does that scaling in
//! pure integer arithmetic: a finite float's magnitude is taken in units of
//! 2^-149 (the smallest subnormal), multiplied exactly, rounded back onto
//! the representable grid, and re-encoded.

use vstd::prelude::*;

use vstd::arithmetic::div_mod::lemma_div_basics;
use vstd::arithmetic::div_mod::lemma_div_by_multiple;
use vstd::arithmetic::div_mod::lemma_div_denominator;
use vstd::arithmetic::div_mod::lemma_div_is_ordered;
use vstd::arithmetic::div_mod::lemma_fundamental_div_mod;
use vstd::arithmetic::div_mod::lemma_fundamental_div_mod_converse;
use vstd::arithmetic::div_mod::lemma_mod_multiples_basic;
use vstd::arithmetic::div_mod::lemma_multiply_divide_lt;
use vstd::arithmetic::mul::lemma_mul_inequality;
use vstd::arithmetic::mul::lemma_mul_is_associative;
use vstd::arithmetic::mul::lemma_mul_is_commutative;
use vstd::arithmetic::mul::lemma_mul_strict_inequality;
use vstd::arithmetic::mul::lemma_mul_upper_bound;
use vstd::arithmetic::power2::lemma2_to64;
use vstd::arithmetic::power2::lemma2_to64_rest;
use vstd::arithmetic::power2::lemma_pow2_adds;
use vstd::arithmetic::power2::lemma_pow2_pos;
use vstd::arithmetic::power2::lemma_pow2_strictly_increases;
use vstd::arithmetic::power2::pow2;
use vstd::bits::lemma_u64_low_bits_mask_is_mod;
use vstd::bits::lemma_u64_shl_is_mul;
use vstd::bits::lemma_u64_shr_is_div;
use vstd::bits::low_bits_mask;

verus! {

/// The sign bit of a float bit pattern: `0` or `0x8000_0000`.
pub open spec fn sign_field(c: u32) -> u32 {
    c & 0x8000_0000
}

/// The biased exponent field, `0` to `255`.
pub open spec fn exp_field(c: u32) -> u32 {
    (c >> 23) & 0xFF
}

/// The 23-bit fraction field.
pub open spec fn frac_field(c: u32) -> u32 {
    c & 0x007F_FFFF
}

/// Whether the bit pattern is a zero, subnormal or normal value.
pub open spec fn is_finite_bits(c: u32) -> bool {
    exp_field(c) != 255
}

/// Whether the bit pattern is a NaN.
pub open spec fn is_nan_bits(c: u32) -> bool {
    exp_field(c) == 255 && frac_field(c) != 0
}

/// Magnitude of a finite float bit pattern, in units of 2^-149. In these
/// units every finite single-precision value is a natural number, so exact
/// products and exact rounding can be stated over `nat`.
pub open spec fn mag149(c: u32) -> nat {
    if exp_field(c) == 0 {
        frac_field(c) as nat
    } else {
        (frac_field(c) as nat + 0x0080_0000) * pow2((exp_field(c) - 1) as nat)
    }
}

/// The largest finite magnitude, in units of 2^-149.
pub open spec fn max_finite_mag() -> nat {
    (pow2(24) - 1) as nat * pow2(253)
}

/// Floor of the base-2 logarithm.
pub open spec fn floor_log2(v: nat) -> nat
    recommends
        v >= 1,
    decreases v,
{
    if v < 2 {
        0
    } else {
        1 + floor_log2(v / 2)
    }
}

/// `p / 2^s` rounded to the nearest integer, ties to even.
pub open spec fn rne_div(p: nat, s: nat) -> nat {
    let q = p / pow2(s);
    let r = p % pow2(s);
    if 2 * r < pow2(s) {
        q
    } else if 2 * r > pow2(s) {
        q + 1
    } else if q % 2 == 0 {
        q
    } else {
        q + 1
    }
}

/// Round a magnitude in units of 2^-149 onto the grid of single-precision
/// representable magnitudes, to nearest with ties to even. Below 2^24 the
/// grid spacing is 1; above, it doubles with every binade.
pub open spec fn round_to_grid(v: nat) -> nat {
    if v < pow2(24) {
        v
    } else {
        let k = (floor_log2(v) - 23) as nat;
        rne_div(v, k) * pow2(k)
    }
}

/// Encode a finite float from its sign bit and its on-grid magnitude in
/// units of 2^-149.
pub open spec fn bits_of_mag(sgn: u32, g: nat) -> u32 {
    if g < pow2(24) {
        (sgn as nat + g) as u32
    } else {
        let k = (floor_log2(g) - 23) as nat;
        let m = g / pow2(k);
        (sgn as nat + (k + 1) * pow2(23) + (m - pow2(23))) as u32
    }
}

/// The single-precision product of the float with bits `c` and the integer
/// `l`, rounded to nearest with ties to even. Infinities keep their sign; a
/// NaN operand yields the same NaN with its quiet bit set; a product beyond
/// the largest finite value overflows to infinity.
pub open spec fn spec_scale(c: u32, l: u32) -> u32 {
    if exp_field(c) == 255 {
        if frac_field(c) == 0 {
            c
        } else {
            c | 0x0040_0000
        }
    } else {
        let g = round_to_grid((mag149(c) * l) as nat);
        if g > max_finite_mag() {
            (sign_field(c) as nat + 0x7F80_0000) as u32
        } else {
            bits_of_mag(sign_field(c), g)
        }
    }
}

/// `pow2` is monotone.
proof fn lemma_pow2_le(e1: nat, e2: nat)
    requires
        e1 <= e2,
    ensures
        pow2(e1) <= pow2(e2),
{
    if e1 < e2 {
        lemma_pow2_strictly_increases(e1, e2);
    }
}

/// `floor_log2(v)` names the binade of `v`.
proof fn lemma_floor_log2_bounds(v: nat)
    requires
        v >= 1,
    ensures
        pow2(floor_log2(v)) <= v < pow2(floor_log2(v) + 1),
    decreases v,
{
    lemma2_to64();
    if v < 2 {
    } else {
        lemma_floor_log2_bounds(v / 2);
        let t = floor_log2(v / 2);
        lemma_pow2_adds(t, 1);
        lemma_pow2_adds(t + 1, 1);
        lemma_fundamental_div_mod(v as int, 2);
        assert(v >= 2 * pow2(t)) by (nonlinear_arith)
            requires
                pow2(t) <= v / 2,
                v == 2 * (v / 2) + v % 2,
                v % 2 >= 0,
        ;
        assert(v < 2 * pow2(t + 1)) by (nonlinear_arith)
            requires
                v / 2 < pow2(t + 1),
                v == 2 * (v / 2) + v % 2,
                v % 2 < 2,
        ;
    }
}

/// The binade bounds determine `floor_log2`.
proof fn lemma_floor_log2_unique(v: nat, t: nat)
    requires
        pow2(t) <= v < pow2(t + 1),
    ensures
        floor_log2(v) == t,
    decreases t,
{
    lemma2_to64();
    if t == 0 {
        assert(v == 1);
    } else {
        lemma_pow2_adds((t - 1) as nat, 1);
        lemma_pow2_adds(t, 1);
        lemma_pow2_pos((t - 1) as nat);
        assert(v >= 2) by {
            lemma_pow2_le(1, t);
        };
        // pow2(t - 1) <= v / 2 < pow2(t)
        assert(pow2((t - 1) as nat) <= v / 2) by {
            lemma_div_is_ordered(pow2(t) as int, v as int, 2);
            lemma_div_by_multiple(pow2((t - 1) as nat) as int, 2);
            assert(pow2(t) as int / 2 == pow2((t - 1) as nat)) by {
                assert(pow2(t) == pow2((t - 1) as nat) * 2);
            };
        };
        assert(v / 2 < pow2(t)) by {
            lemma_multiply_divide_lt(v as int, 2, pow2(t) as int);
        };
        lemma_floor_log2_unique(v / 2, (t - 1) as nat);
    }
}

/// Rounding `p` at granularity `2^s` is unchanged by scaling both the value
/// and the granularity by `2^j`.
proof fn lemma_rne_scaled(p: nat, s: nat, j: nat)
    ensures
        rne_div(p * pow2(j), s + j) == rne_div(p, s),
{
    let d = pow2(s);
    let jj = pow2(j);
    lemma_pow2_pos(s);
    lemma_pow2_pos(j);
    lemma_pow2_adds(s, j);
    let q = p / d;
    let r = p % d;
    lemma_fundamental_div_mod(p as int, d as int);
    assert(p * jj == q * (d * jj) + r * jj) by (nonlinear_arith)
        requires
            p == d * q + r,
    ;
    assert(r * jj < d * jj) by {
        lemma_mul_strict_inequality(r as int, d as int, jj as int);
    };
    lemma_fundamental_div_mod_converse(
        (p * jj) as int,
        (d * jj) as int,
        q as int,
        (r * jj) as int,
    );
    assert((p * jj) / pow2(s + j) == q);
    assert((p * jj) % pow2(s + j) == r * jj);
    // 2r compares to d exactly as 2rj compares to dj
    assert(2 * (r * jj) == (2 * r) * jj) by (nonlinear_arith);
    if 2 * r < d {
        lemma_mul_strict_inequality((2 * r) as int, d as int, jj as int);
    } else if 2 * r > d {
        lemma_mul_strict_inequality(d as int, (2 * r) as int, jj as int);
    }
}

/// For `p` at or above 2^23, rounding `p * 2^j` onto the representable grid
/// reduces to integer rounding of `p` in its own binade.
proof fn lemma_round_to_grid_scaled(p: nat, j: nat)
    requires
        p >= pow2(23),
    ensures
        floor_log2(p) >= 23,
        round_to_grid(p * pow2(j)) == rne_div(p, (floor_log2(p) - 23) as nat) * pow2(
            (floor_log2(p) - 23 + j) as nat,
        ),
{
    lemma_pow2_pos(j);
    lemma_pow2_pos(23);
    assert(p >= 1);
    lemma_floor_log2_bounds(p);
    let t = floor_log2(p);
    assert(t >= 23) by {
        if t + 1 <= 23 {
            lemma_pow2_le(t + 1, 23);
        }
    };
    let s = (t - 23) as nat;
    let v = p * pow2(j);
    assert(v >= p) by {
        lemma_mul_inequality(1, pow2(j) as int, p as int);
        lemma_mul_is_commutative(p as int, pow2(j) as int);
    };
    // floor_log2(v) == t + j
    assert(pow2(t + j) <= v) by {
        lemma_pow2_adds(t, j);
        lemma_mul_inequality(pow2(t) as int, p as int, pow2(j) as int);
    };
    assert(v < pow2(t + j + 1)) by {
        lemma_pow2_adds(t + 1, j);
        lemma_mul_strict_inequality(p as int, pow2(t + 1) as int, pow2(j) as int);
    };
    lemma_floor_log2_unique(v, t + j);
    if v < pow2(24) {
        // only possible right at the bottom binade with no shift
        assert(t + j < 24) by {
            if t + j >= 24 {
                lemma_pow2_le(24, t + j);
            }
        };
        assert(t == 23 && j == 0);
        lemma2_to64();
        assert(pow2(0nat) == 1);
        assert(rne_div(p, 0nat) == p) by {
            lemma_div_basics(p as int);
            assert(p % 1 == 0) by {
                lemma_mod_multiples_basic(p as int, 1);
            };
        };
        assert(pow2(j) == 1);
        assert(v == p) by (nonlinear_arith)
            requires
                v == p * pow2(j),
                pow2(j) == 1,
        ;
    } else {
        let k = (floor_log2(v) - 23) as nat;
        assert(k == s + j);
        lemma_rne_scaled(p, s, j);
    }
}

/// Evaluate `bits_of_mag` on a magnitude given in normalised form.
proof fn lemma_bits_of_mag_eval(sgn: u32, m: nat, e: nat)
    requires
        pow2(23) <= m < pow2(24),
        1 <= e <= 254,
    ensures
        bits_of_mag(sgn, m * pow2((e - 1) as nat)) == (sgn as nat + e * pow2(23) + (m - pow2(
            23,
        ))) as u32,
{
    lemma2_to64();
    let g = m * pow2((e - 1) as nat);
    if e == 1 {
        assert(pow2(0nat) == 1);
        assert((e - 1) as nat == 0nat);
        assert(g == m * pow2(0nat));
        assert(g == m);
        assert(bits_of_mag(sgn, g) == (sgn as nat + g) as u32);
        assert(1 * pow2(23) == pow2(23));
    } else {
        let e1 = (e - 1) as nat;
        lemma_pow2_pos(e1);
        assert(g >= pow2(24)) by {
            lemma_pow2_adds(23, e1);
            lemma_pow2_le(24, 23 + e1);
            lemma_mul_inequality(pow2(23) as int, m as int, pow2(e1) as int);
        };
        assert(pow2(23 + e1) <= g) by {
            lemma_pow2_adds(23, e1);
            lemma_mul_inequality(pow2(23) as int, m as int, pow2(e1) as int);
        };
        assert(g < pow2(23 + e1 + 1)) by {
            lemma_pow2_adds(24, e1);
            lemma_mul_strict_inequality(m as int, pow2(24) as int, pow2(e1) as int);
        };
        lemma_floor_log2_unique(g, 23 + e1);
        assert((floor_log2(g) - 23) as nat == e1);
        assert(g / pow2(e1) == m) by {
            lemma_div_by_multiple(m as int, pow2(e1) as int);
        };
        assert((e1 + 1) == e);
    }
}

/// A normalised magnitude overflows the finite range exactly when its biased
/// exponent would reach 255.
proof fn lemma_overflow_threshold(m: nat, e: nat)
    requires
        pow2(23) <= m < pow2(24),
        e >= 1,
    ensures
        m * pow2((e - 1) as nat) > max_finite_mag() <==> e >= 255,
{
    let e1 = (e - 1) as nat;
    let g = m * pow2(e1);
    if e >= 255 {
        assert(g >= pow2(23 + e1)) by {
            lemma_pow2_adds(23, e1);
            lemma_mul_inequality(pow2(23) as int, m as int, pow2(e1) as int);
        };
        assert(pow2(23 + e1) >= pow2(277)) by {
            lemma_pow2_le(277, 23 + e1);
        };
        assert(max_finite_mag() < pow2(277)) by {
            lemma_pow2_adds(24, 253);
            lemma_pow2_pos(253);
            lemma_mul_strict_inequality((pow2(24) - 1) as int, pow2(24) as int, pow2(253) as int);
        };
    } else {
        assert(g <= max_finite_mag()) by {
            lemma_pow2_le(e1, 253);
            lemma_pow2_pos(e1);
            lemma_mul_upper_bound(m as int, (pow2(24) - 1) as int, pow2(e1) as int, pow2(253) as int);
        };
    }
}

/// Scaling a finite float by 1 returns it unchanged.
pub proof fn lemma_scale_one(c: u32)
    requires
        is_finite_bits(c),
    ensures
        spec_scale(c, 1) == c,
{
    lemma2_to64();
    let sgn = sign_field(c);
    let e0 = exp_field(c);
    let frac = frac_field(c);
    assert(sgn == 0 || sgn == 0x8000_0000) by (bit_vector)
        requires
            sgn == c & 0x8000_0000,
    ;
    assert(e0 < 256 && frac < 0x0080_0000) by (bit_vector)
        requires
            e0 == (c >> 23) & 0xFF,
            frac == c & 0x007F_FFFF,
    ;
    assert(c as nat == sgn as nat + e0 as nat * 0x0080_0000 + frac as nat) by (bit_vector)
        requires
            sgn == c & 0x8000_0000,
            e0 == (c >> 23) & 0xFF,
            frac == c & 0x007F_FFFF,
    ;
    let mag = mag149(c);
    assert(mag * 1 == mag);
    if e0 == 0 {
        assert(mag == frac as nat);
        assert(round_to_grid(mag) == mag);
        assert(mag <= max_finite_mag()) by {
            lemma_pow2_le(23, 253);
            lemma_mul_inequality(1, (pow2(24) - 1) as int, pow2(253) as int);
        };
        assert(bits_of_mag(sgn, mag) == (sgn as nat + frac as nat) as u32);
    } else {
        let s = frac as nat + 0x0080_0000;
        let e1 = (e0 - 1) as nat;
        assert(mag == s * pow2(e1));
        assert(pow2(23) <= s < pow2(24));
        // mag is already on the grid
        assert(round_to_grid(mag) == mag) by {
            lemma_round_to_grid_scaled(s, e1);
            assert(floor_log2(s) == 23) by {
                lemma_floor_log2_unique(s, 23);
            };
            assert(rne_div(s, 0nat) == s) by {
                lemma_div_basics(s as int);
                lemma_mod_multiples_basic(s as int, 1);
                assert(pow2(0nat) == 1);
            };
            assert(rne_div(s, 0nat) * pow2(0 + e1) == s * pow2(e1));
        };
        assert(!(mag > max_finite_mag())) by {
            lemma_overflow_threshold(s, e0 as nat);
        };
        lemma_bits_of_mag_eval(sgn, s, e0 as nat);
        assert(bits_of_mag(sgn, mag) == (sgn as nat + e0 as nat * pow2(23) + frac as nat) as u32);
    }
}

/// Floor of the base-2 logarithm of a positive 64-bit value.
fn floor_log2_u64(p: u64) -> (t: u64)
    requires
        p >= 1,
    ensures
        t == floor_log2(p as nat),
        t < 64,
{
    let mut q: u64 = p;
    let mut t: u64 = 0;
    proof {
        lemma2_to64();
        lemma_div_basics(p as int);
    }
    while q >= 2
        invariant
            t < 64,
            1 <= q,
            q as nat == p as nat / pow2(t as nat),
            pow2(t as nat) <= p as nat,
        decreases q,
    {
        proof {
            lemma_pow2_pos(t as nat);
            lemma_pow2_adds(t as nat, 1);
            lemma2_to64();
            lemma_div_denominator(p as int, pow2(t as nat) as int, 2);
            lemma_fundamental_div_mod(p as int, pow2(t as nat) as int);
            lemma_mul_inequality(2, q as int, pow2(t as nat) as int);
            assert(pow2(t as nat + 1) <= p as nat);
            if t as nat + 1 >= 64 {
                lemma_pow2_le(64, t as nat + 1);
                lemma2_to64_rest();
            }
        }
        q = q / 2;
        t = t + 1;
    }
    proof {
        lemma_pow2_pos(t as nat);
        lemma_fundamental_div_mod(p as int, pow2(t as nat) as int);
        lemma_pow2_adds(t as nat, 1);
        lemma2_to64();
        lemma_floor_log2_unique(p as nat, t as nat);
    }
    t
}

/// Multiply the single-precision float with bit pattern `c` by the integer
/// `l`, rounding to nearest with ties to even, entirely in integer
/// arithmetic.
pub fn scale_component(c: u32, l: u32) -> (r: u32)
    requires
        l >= 1,
    ensures
        r == spec_scale(c, l),
{
    let sgn: u32 = c & 0x8000_0000;
    let e0: u32 = (c >> 23) & 0xFF;
    let frac: u32 = c & 0x007F_FFFF;
    proof {
        assert(e0 <= 255 && frac < 0x0080_0000 && (sgn == 0 || sgn == 0x8000_0000))
            by (bit_vector)
            requires
                sgn == c & 0x8000_0000,
                e0 == (c >> 23) & 0xFF,
                frac == c & 0x007F_FFFF,
        ;
        lemma2_to64();
        lemma2_to64_rest();
    }
    if e0 == 255 {
        if frac == 0 {
            return c;
        } else {
            return c | 0x0040_0000;
        }
    }
    let sv: u64 = if e0 == 0 {
        frac as u64
    } else {
        (frac as u64) + 0x0080_0000
    };
    proof {
        lemma_mul_upper_bound(sv as int, 0x00FF_FFFF, l as int, 0xFFFF_FFFF);
    }
    let p: u64 = sv * (l as u64);
    let ghost ebase: nat = if e0 == 0 {
        0nat
    } else {
        (e0 - 1) as nat
    };
    proof {
        // the exact product in units of 2^-149 is p * 2^ebase
        if e0 == 0 {
            assert(mag149(c) * l == p as nat * pow2(ebase)) by (nonlinear_arith)
                requires
                    mag149(c) == frac as nat,
                    p == sv * l,
                    sv == frac,
                    pow2(ebase) == 1,
            ;
        } else {
            assert(mag149(c) * l == p as nat * pow2(ebase)) by (nonlinear_arith)
                requires
                    mag149(c) == (frac as nat + 0x0080_0000) * pow2(ebase),
                    p == sv * l,
                    sv == frac as nat + 0x0080_0000,
            ;
        }
    }
    if p < 0x0080_0000 {
        // an exact subnormal product: every bit is kept
        proof {
            if e0 != 0 {
                lemma_mul_inequality(1, l as int, sv as int);
                lemma_mul_is_commutative(sv as int, l as int);
            }
            assert(e0 == 0);
            assert(round_to_grid((mag149(c) * l) as nat) == p as nat);
            assert((mag149(c) * l) as nat <= max_finite_mag()) by {
                lemma_pow2_le(23, 253);
                lemma_mul_inequality(1, (pow2(24) - 1) as int, pow2(253) as int);
            };
            assert(bits_of_mag(sgn, p as nat) == (sgn as nat + p as nat) as u32);
        }
        return sgn + (p as u32);
    }
    let t: u64 = floor_log2_u64(p);
    proof {
        lemma_floor_log2_bounds(p as nat);
        if t < 23 {
            lemma_pow2_le(t as nat + 1, 23);
        }
        if t > 55 {
            lemma_pow2_le(56, t as nat);
        }
        assert(23 <= t <= 55);
    }
    let s: u64 = t - 23;
    proof {
        lemma_u64_shl_is_mul(1u64, s);
    }
    let pow_s: u64 = 1u64 << s;
    let q: u64 = p >> s;
    let rem: u64 = p & (pow_s - 1);
    proof {
        lemma_u64_shr_is_div(p, s);
        assert(pow_s - 1 == low_bits_mask(s as nat));
        lemma_u64_low_bits_mask_is_mod(p, s as nat);
        lemma_pow2_pos(s as nat);
        // q sits in the top binade: 2^23 <= q < 2^24
        assert(pow2(23) <= q as nat) by {
            lemma_pow2_adds(23, s as nat);
            lemma_div_by_multiple(pow2(23) as int, pow2(s as nat) as int);
            lemma_div_is_ordered(pow2(t as nat) as int, p as int, pow2(s as nat) as int);
        };
        assert((q as nat) < pow2(24)) by {
            lemma_pow2_adds(24, s as nat);
            lemma_multiply_divide_lt(p as int, pow2(s as nat) as int, pow2(24) as int);
        };
    }
    let m0: u64 = if 2 * rem < pow_s {
        q
    } else if 2 * rem > pow_s {
        q + 1
    } else if q % 2 == 0 {
        q
    } else {
        q + 1
    };
    proof {
        assert(m0 as nat == rne_div(p as nat, s as nat));
        assert(pow2(23) <= m0 as nat <= pow2(24));
        lemma_round_to_grid_scaled(p as nat, ebase);
    }
    let e_lo: u64 = if e0 == 0 {
        0
    } else {
        (e0 - 1) as u64
    };
    let mut m: u64 = m0;
    let mut e: u64 = e_lo + s + 1;
    if m == 0x0100_0000 {
        m = 0x0080_0000;
        e = e + 1;
    }
    proof {
        // the grid-rounded product is m * 2^(e-1) with m normalised
        assert(pow2(23) <= m as nat && (m as nat) < pow2(24));
        assert(e >= 1);
        if m0 == 0x0100_0000 {
            assert(
                m0 as nat * pow2((s as nat + ebase)) == m as nat * pow2((e - 1) as nat)
            ) by {
                lemma_pow2_adds(1, s as nat + ebase);
                assert(m0 as nat == 2 * m as nat);
                lemma_mul_is_associative(2, m as int, pow2(s as nat + ebase) as int);
                assert((e - 1) as nat == s as nat + ebase + 1);
                lemma_pow2_adds(s as nat + ebase, 1);
            };
        } else {
            assert((e - 1) as nat == s as nat + ebase);
        }
        assert(round_to_grid((mag149(c) * l) as nat) == m as nat * pow2((e - 1) as nat));
        lemma_overflow_threshold(m as nat, e as nat);
    }
    if e >= 255 {
        return sgn + 0x7F80_0000;
    }
    proof {
        lemma_bits_of_mag_eval(sgn, m as nat, e as nat);
        assert(pow2(23) == 0x0080_0000);
        assert(e as nat * pow2(23) <= 254 * 0x0080_0000) by {
            lemma_mul_inequality(e as int, 254, pow2(23) as int);
        };
    }
    sgn + (e as u32) * 0x0080_0000 + ((m as u32) - 0x0080_0000)
}

} // verus!
