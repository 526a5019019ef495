//! The numeric normalization policy.
//!
//! Source documents carry real numbers whose encoding is ambiguous: a value
//! that is (within a small epsilon) a whole number must project as a host
//! integer, every other value as a host real. The policy is decided here on
//! the IEEE 754 binary64 bit pattern of the source value, with exact integer
//! arithmetic.
//!
//! The mathematical model: every finite binary64 value is an integer multiple
//! of 2^-1074, so a bit pattern `b` denotes the rational `value_scaled(b) /
//! 2^1074` exactly. The epsilon of the policy is 2^-52 (the machine epsilon of
//! binary64), which scales to 2^1022.

use vstd::prelude::*;

verus! {

use vstd::arithmetic::power2::{
    pow2,
    lemma_pow2_adds,
    lemma_pow2_pos,
    lemma_pow2_strictly_increases,
    lemma2_to64,
    lemma2_to64_rest,
};
use vstd::arithmetic::div_mod::{
    lemma_fundamental_div_mod,
    lemma_fundamental_div_mod_converse,
    lemma_small_mod,
    lemma_mod_bound,
};
use vstd::bits::{
    lemma_u64_shr_is_div,
    lemma_u64_shl_is_mul,
    lemma_u64_low_bits_mask_is_mod,
    low_bits_mask,
};

/// A source real number, held as the bit pattern of an IEEE 754 binary64
/// value. The projection core never computes with floating point; everything
/// it needs of the value is recovered from the bits by integer arithmetic.
#[derive(Clone, Copy, Debug, PartialEq, Eq)]
pub struct Real {
    pub bits: u64,
}

/// A normalized host number: either a host integer or a host real (the latter
/// carried through unchanged, as its bit pattern).
#[derive(Clone, Copy, Debug, PartialEq, Eq)]
pub enum HostNum {
    Int(i64),
    Float(Real),
}

/// The biased exponent field of the bit pattern (11 bits).
pub open spec fn exp_field(b: u64) -> u64 {
    (b >> 52) & 0x7ff
}

/// The mantissa field of the bit pattern (52 bits).
pub open spec fn mantissa_field(b: u64) -> u64 {
    b & 0xf_ffff_ffff_ffff
}

/// The sign bit of the bit pattern.
pub open spec fn sign_field(b: u64) -> bool {
    b >> 63 == 1
}

/// Whether the bit pattern denotes a finite value (not an infinity, not NaN).
pub open spec fn is_finite(b: u64) -> bool {
    exp_field(b) != 0x7ff
}

/// One unit (the real number 1) in the scaled model: 2^1074.
pub open spec fn scale_one() -> nat {
    pow2(1074)
}

/// The policy's epsilon (2^-52) in the scaled model: 2^1022.
pub open spec fn scale_epsilon() -> nat {
    pow2(1022)
}

/// The magnitude of a finite value, scaled by 2^1074. A subnormal pattern
/// denotes mantissa * 2^-1074; a normal pattern with biased exponent e
/// denotes (2^52 + mantissa) * 2^(e - 1075), which scales to
/// (2^52 + mantissa) * 2^(e - 1).
pub open spec fn magnitude_scaled(b: u64) -> nat {
    if exp_field(b) == 0 {
        mantissa_field(b) as nat
    } else {
        ((pow2(52) + mantissa_field(b)) * pow2((exp_field(b) - 1) as nat)) as nat
    }
}

/// The denoted value, scaled by 2^1074: an exact integer for every finite
/// bit pattern.
pub open spec fn value_scaled(b: u64) -> int {
    if sign_field(b) {
        -(magnitude_scaled(b) as int)
    } else {
        magnitude_scaled(b) as int
    }
}

/// The scaled distance from the value to the next integer at or below it.
pub open spec fn frac_scaled(b: u64) -> int {
    value_scaled(b) % (scale_one() as int)
}

/// Whether the value lies strictly within epsilon of some integer.
pub open spec fn near_integer(b: u64) -> bool {
    &&& is_finite(b)
    &&& (frac_scaled(b) < scale_epsilon() || scale_one() - frac_scaled(b) < scale_epsilon())
}

/// The integer nearest to the value; meaningful when `near_integer` holds,
/// where that integer is unique.
pub open spec fn nearest_integer(b: u64) -> int {
    if frac_scaled(b) < scale_epsilon() {
        value_scaled(b) / (scale_one() as int)
    } else {
        value_scaled(b) / (scale_one() as int) + 1
    }
}

/// What the policy yields for a real with bit pattern `b`: the nearest
/// integer when the value lies within epsilon of one and that integer is
/// representable as a host integer, otherwise the real itself, unchanged.
pub open spec fn normalized_num(b: u64) -> HostNum {
    if near_integer(b) && i64::MIN <= nearest_integer(b) <= i64::MAX {
        HostNum::Int(nearest_integer(b) as i64)
    } else {
        HostNum::Float(Real { bits: b })
    }
}

/// Division and remainder of a nonnegative value, negated.
proof fn lemma_neg_div_mod(v: int, p: int)
    requires
        p > 0,
        v >= 0,
    ensures
        v % p == 0 ==> (-v) % p == 0 && (-v) / p == -(v / p),
        v % p != 0 ==> (-v) % p == p - (v % p) && (-v) / p == -(v / p) - 1,
{
    let q = v / p;
    let r = v % p;
    lemma_fundamental_div_mod(v, p);
    lemma_mod_bound(v, p);
    if r == 0 {
        assert(-v == (-q) * p + 0) by (nonlinear_arith)
            requires
                v == p * q,
        ;
        lemma_fundamental_div_mod_converse(-v, p, -q, 0);
    } else {
        assert(-v == (-q - 1) * p + (p - r)) by (nonlinear_arith)
            requires
                v == p * q + r,
        ;
        lemma_fundamental_div_mod_converse(-v, p, -q - 1, p - r);
    }
}

/// Remainder and quotient of `mp * 2^l` by 2^1074 where k + l == 1074,
/// reduced to the remainder and quotient of `mp` by 2^k.
proof fn lemma_scaled_div_mod(mp: nat, k: nat, l: nat)
    requires
        1 <= k,
        k + l == 1074,
    ensures
        (mp * pow2(l)) as int % (pow2(1074) as int) == ((mp % pow2(k)) as int) * (pow2(l) as int),
        (mp * pow2(l)) as int / (pow2(1074) as int) == mp as int / (pow2(k) as int),
{
    let pk = pow2(k) as int;
    let pl = pow2(l) as int;
    lemma_pow2_pos(k);
    lemma_pow2_pos(l);
    lemma_pow2_pos(1074);
    lemma_pow2_adds(k, l);
    let q = mp as int / pk;
    let r = mp as int % pk;
    lemma_fundamental_div_mod(mp as int, pk);
    lemma_mod_bound(mp as int, pk);
    assert(mp * pl == q * (pk * pl) + r * pl) by (nonlinear_arith)
        requires
            mp == pk * q + r,
    ;
    assert(r * pl < pk * pl) by (nonlinear_arith)
        requires
            r < pk,
            pl > 0,
    ;
    assert(r * pl >= 0) by (nonlinear_arith)
        requires
            r >= 0,
            pl > 0,
    ;
    lemma_fundamental_div_mod_converse(mp as int * pl, pk * pl, q, r * pl);
}

/// Nearness and the nearest integer, characterized over the magnitude alone:
/// the classification is symmetric in the sign, and the nearest integer is the
/// signed counterpart of the magnitude's quotient.
proof fn lemma_near_from_magnitude(b: u64)
    requires
        is_finite(b),
    ensures
        near_integer(b) == ((magnitude_scaled(b) as int % (scale_one() as int) < scale_epsilon())
            || (scale_one() - magnitude_scaled(b) as int % (scale_one() as int)
            < scale_epsilon())),
        (magnitude_scaled(b) as int % (scale_one() as int) < scale_epsilon()) ==> nearest_integer(b)
            == (if sign_field(b) {
            -(magnitude_scaled(b) as int / (scale_one() as int))
        } else {
            magnitude_scaled(b) as int / (scale_one() as int)
        }),
        (magnitude_scaled(b) as int % (scale_one() as int) >= scale_epsilon() && scale_one()
            - magnitude_scaled(b) as int % (scale_one() as int) < scale_epsilon())
            ==> nearest_integer(b) == (if sign_field(b) {
            -(magnitude_scaled(b) as int / (scale_one() as int)) - 1
        } else {
            magnitude_scaled(b) as int / (scale_one() as int) + 1
        }),
{
    let p = scale_one() as int;
    let eps = scale_epsilon() as int;
    let mag = magnitude_scaled(b) as int;
    lemma_pow2_pos(1074);
    lemma_pow2_pos(1022);
    assert(eps + eps < p) by {
        lemma_pow2_adds(1022, 1);
        lemma2_to64();
        lemma_pow2_strictly_increases(1023, 1074);
    }
    lemma_mod_bound(mag, p);
    if sign_field(b) {
        lemma_neg_div_mod(mag, p);
        if mag % p == 0 {
            assert(frac_scaled(b) == 0);
        } else {
            assert(frac_scaled(b) == p - mag % p);
            // the two sides swap under negation
            assert(p - frac_scaled(b) == mag % p);
            if mag % p < eps {
                // the magnitude sits just above an integer, so the negated
                // value sits just below one: the high side of the remainder
                assert(frac_scaled(b) >= eps);
            }
        }
    }
}

/// Monotonicity of powers of two.
proof fn lemma_pow2_le(e1: nat, e2: nat)
    requires
        e1 <= e2,
    ensures
        pow2(e1) <= pow2(e2),
{
    if e1 < e2 {
        lemma_pow2_strictly_increases(e1, e2);
    }
}

/// A subnormal pattern (or a zero) is within epsilon of zero.
proof fn lemma_branch_tiny(b: u64)
    requires
        exp_field(b) == 0,
    ensures
        normalized_num(b) == HostNum::Int(0i64),
{
    let p = scale_one() as int;
    let mag = magnitude_scaled(b) as int;
    assert(b & 0xf_ffff_ffff_ffff < 0x10_0000_0000_0000) by (bit_vector);
    lemma2_to64();
    lemma2_to64_rest();
    lemma_pow2_pos(1074);
    assert(mag < pow2(52));
    assert(pow2(52) < pow2(1022)) by {
        lemma_pow2_strictly_increases(52, 1022);
    }
    assert(pow2(1022) < pow2(1074)) by {
        lemma_pow2_strictly_increases(1022, 1074);
    }
    lemma_fundamental_div_mod_converse(mag, p, 0, mag);
    lemma_near_from_magnitude(b);
    assert(near_integer(b));
    assert(nearest_integer(b) == 0);
}

/// A pattern with biased exponent 1075 or more denotes an exact integer:
/// the mantissa shifted left by `exp_field(b) - 1075`.
proof fn lemma_branch_integral(b: u64)
    requires
        1075 <= exp_field(b),
        is_finite(b),
    ensures
        near_integer(b),
        nearest_integer(b) == (if sign_field(b) {
            -(((pow2(52) + mantissa_field(b)) * pow2((exp_field(b) - 1075) as nat)) as int)
        } else {
            ((pow2(52) + mantissa_field(b)) * pow2((exp_field(b) - 1075) as nat)) as int
        }),
{
    let e = exp_field(b);
    let s = (e - 1075) as nat;
    let p = scale_one() as int;
    let mp: int = pow2(52) as int + mantissa_field(b);
    let ps = pow2(s) as int;
    let pe = pow2((e - 1) as nat) as int;
    let mag = magnitude_scaled(b) as int;
    lemma_pow2_pos(1074);
    lemma_pow2_pos(s);
    lemma_pow2_pos(52);
    lemma_pow2_pos((e - 1) as nat);
    assert((e - 1) as nat == s + 1074);
    assert(pe == ps * p) by {
        lemma_pow2_adds(s, 1074);
    }
    assert(mag == mp * pe);
    assert(mag == (mp * ps) * p) by (nonlinear_arith)
        requires
            mag == mp * (ps * p),
    ;
    assert(mp * ps >= ps) by (nonlinear_arith)
        requires
            mp >= 1,
            ps > 0,
    ;
    lemma_fundamental_div_mod_converse(mag, p, mp * ps, 0);
    lemma_pow2_pos(1022);
    lemma_near_from_magnitude(b);
}

/// A pattern with biased exponent in [1, 1074] splits as quotient and
/// remainder of the full mantissa by 2^k, where k = 1075 - exp_field(b):
/// the remainder decides nearness, the quotient is the integer part.
proof fn lemma_branch_fraction_split(b: u64)
    requires
        1 <= exp_field(b) <= 1074,
    ensures
        magnitude_scaled(b) as int % (scale_one() as int) == ((((pow2(52) + mantissa_field(b))
            as nat) % pow2((1075 - exp_field(b)) as nat)) as int) * (pow2((exp_field(b) - 1) as nat)
            as int),
        magnitude_scaled(b) as int / (scale_one() as int) == ((pow2(52) + mantissa_field(b)) as int)
            / (pow2((1075 - exp_field(b)) as nat) as int),
{
    let e = exp_field(b);
    let k = (1075 - e) as nat;
    let l = (e - 1) as nat;
    let mp = (pow2(52) + mantissa_field(b)) as nat;
    lemma_scaled_div_mod(mp, k, l);
    assert(magnitude_scaled(b) == mp * pow2(l));
    assert(scale_one() == pow2(1074));
}

/// Classify one source real by its bit pattern: a finite value within
/// epsilon of an integer representable as `i64` becomes that integer,
/// everything else (including NaN and the infinities) stays a real,
/// unchanged.
pub fn normalize_real(r: Real) -> (out: HostNum)
    ensures
        out == normalized_num(r.bits),
{
    let b = r.bits;
    let e: u64 = (b >> 52) & 0x7ff;
    let m: u64 = b & 0xf_ffff_ffff_ffff;
    let neg: bool = (b >> 63) == 1;
    proof {
        assert(b & 0xf_ffff_ffff_ffff < 0x10_0000_0000_0000) by (bit_vector);
        assert((b >> 52) & 0x7ff <= 0x7ff) by (bit_vector);
        lemma2_to64();
        lemma2_to64_rest();
    }
    if e == 0x7ff {
        // an infinity or NaN: not finite, never near an integer
        HostNum::Float(r)
    } else if e == 0 {
        proof {
            lemma_branch_tiny(b);
        }
        HostNum::Int(0)
    } else {
        let mp: u64 = m | 0x10_0000_0000_0000;
        proof {
            assert(mp == m + 0x10_0000_0000_0000) by (bit_vector)
                requires
                    m < 0x10_0000_0000_0000,
                    mp == m | 0x10_0000_0000_0000,
            ;
            assert(mp == pow2(52) + m);
            assert(mp < pow2(53));
        }
        if e >= 1075 {
            let s: u64 = e - 1075;
            proof {
                lemma_branch_integral(b);
                lemma_pow2_pos(s as nat);
            }
            if s <= 10 {
                proof {
                    assert(pow2(s as nat) <= pow2(10)) by {
                        lemma_pow2_le(s as nat, 10);
                    }
                    assert(mp * pow2(s as nat) < pow2(53) * pow2(10)) by (nonlinear_arith)
                        requires
                            mp < pow2(53),
                            pow2(s as nat) <= pow2(10),
                            pow2(s as nat) > 0,
                            pow2(53) > 0,
                    ;
                    assert(pow2(53) * pow2(10) == pow2(63)) by {
                        lemma_pow2_adds(53, 10);
                    }
                    lemma_u64_shl_is_mul(mp, s);
                }
                let mag: u64 = mp << s;
                if neg {
                    HostNum::Int(-(mag as i64))
                } else {
                    HostNum::Int(mag as i64)
                }
            } else if s == 11 && neg && m == 0 {
                proof {
                    assert(pow2(52) * pow2(11) == pow2(63)) by {
                        lemma_pow2_adds(52, 11);
                    }
                }
                HostNum::Int(i64::MIN)
            } else {
                // the integer is out of the host integer's range
                proof {
                    let ps = pow2(s as nat) as int;
                    let mpi: int = mp as int;
                    let v: int = ((pow2(52) + m) * pow2((e - 1075) as nat)) as int;
                    assert(v == mpi * ps);
                    assert(pow2(52) * pow2(11) == pow2(63)) by {
                        lemma_pow2_adds(52, 11);
                    }
                    if s == 11 {
                        if m == 0 {
                            // positive sign here, and the value is exactly 2^63
                            assert(v == pow2(63));
                            assert(!(i64::MIN <= nearest_integer(b) <= i64::MAX));
                        } else {
                            assert(v >= (pow2(52) as int + 1) * ps) by (nonlinear_arith)
                                requires
                                    mpi >= pow2(52) as int + 1,
                                    ps > 0,
                                    v == mpi * ps,
                            ;
                            assert((pow2(52) as int + 1) * ps == pow2(63) + pow2(11)) by
                                (nonlinear_arith)
                                requires
                                    pow2(52) as int * ps == pow2(63),
                                    ps == pow2(11),
                            ;
                            assert(!(i64::MIN <= nearest_integer(b) <= i64::MAX));
                        }
                    } else {
                        assert(ps >= pow2(12)) by {
                            lemma_pow2_le(12, s as nat);
                        }
                        assert(v >= pow2(52) as int * pow2(12) as int) by (nonlinear_arith)
                            requires
                                mpi >= pow2(52),
                                ps >= pow2(12),
                                pow2(52) > 0,
                                pow2(12) > 0,
                                v == mpi * ps,
                        ;
                        assert(pow2(52) * pow2(12) == pow2(64)) by {
                            lemma_pow2_adds(52, 12);
                        }
                        assert(!(i64::MIN <= nearest_integer(b) <= i64::MAX));
                    }
                }
                HostNum::Float(r)
            }
        } else {
            let k: u64 = 1075 - e;
            proof {
                lemma_branch_fraction_split(b);
                lemma_pow2_pos(k as nat);
                lemma_pow2_pos((e - 1) as nat);
                lemma_pow2_pos(1022);
                lemma_pow2_pos(1074);
                lemma_near_from_magnitude(b);
            }
            if k >= 54 {
                proof {
                    // the whole mantissa is the remainder: mp < 2^53 <= 2^(k-1)
                    assert(pow2(53) <= pow2((k - 1) as nat)) by {
                        lemma_pow2_le(53, (k - 1) as nat);
                    }
                    assert(pow2((k - 1) as nat) < pow2(k as nat)) by {
                        lemma_pow2_strictly_increases((k - 1) as nat, k as nat);
                    }
                    lemma_small_mod(mp as nat, pow2(k as nat));
                    lemma_fundamental_div_mod_converse(mp as int, pow2(k as nat) as int, 0, mp as int);
                }
                let big: bool = if k >= 105 {
                    false
                } else {
                    proof {
                        lemma_u64_shl_is_mul(1u64, (k - 52) as u64);
                        assert(pow2((k - 52) as nat) <= pow2(52)) by {
                            lemma_pow2_le((k - 52) as nat, 52);
                        }
                    }
                    mp >= (1u64 << (k - 52))
                };
                if big {
                    // at least epsilon away from an integer on both sides
                    proof {
                        let pk = pow2(k as nat) as int;
                        let pl = pow2((e - 1) as nat) as int;
                        assert(scale_one() == pk * pl) by {
                            lemma_pow2_adds(k as nat, (e - 1) as nat);
                        }
                        assert(pow2((k - 52) as nat) * pl == pow2(1022)) by {
                            lemma_pow2_adds((k - 52) as nat, (e - 1) as nat);
                        }
                        assert(mp * pl >= pow2((k - 52) as nat) * pl) by (nonlinear_arith)
                            requires
                                mp >= pow2((k - 52) as nat),
                                pl > 0,
                        ;
                        // and the high side: 2^k - mp is at least 2^(k-1)
                        assert(pk == pow2((k - 1) as nat) + pow2((k - 1) as nat)) by {
                            lemma_pow2_adds((k - 1) as nat, 1);
                        }
                        assert(pow2(53) <= pow2((k - 1) as nat)) by {
                            lemma_pow2_le(53, (k - 1) as nat);
                        }
                        assert(pow2((k - 52) as nat) <= pow2((k - 1) as nat)) by {
                            lemma_pow2_le((k - 52) as nat, (k - 1) as nat);
                        }
                        assert(pk - mp >= pow2((k - 52) as nat));
                        assert((pk - mp) * pl >= pow2((k - 52) as nat) * pl) by (nonlinear_arith)
                            requires
                                pk - mp >= pow2((k - 52) as nat),
                                pl > 0,
                        ;
                        assert((scale_one() - magnitude_scaled(b) as int % (scale_one() as int))
                            == (pk - mp) * pl) by (nonlinear_arith)
                            requires
                                magnitude_scaled(b) as int % (scale_one() as int) == mp * pl,
                                scale_one() == pk * pl,
                        ;
                        assert(!near_integer(b));
                    }
                    HostNum::Float(r)
                } else {
                    proof {
                        let pl = pow2((e - 1) as nat) as int;
                        if k >= 105 {
                            assert(mp * pl < pow2(53) * pl) by (nonlinear_arith)
                                requires
                                    mp < pow2(53),
                                    pl > 0,
                            ;
                            assert(pow2(53) * pl == pow2((52 + e) as nat)) by {
                                lemma_pow2_adds(53, (e - 1) as nat);
                            }
                            assert(pow2((52 + e) as nat) <= pow2(1022)) by {
                                lemma_pow2_le((52 + e) as nat, 1022);
                            }
                        } else {
                            assert(mp * pl < pow2((k - 52) as nat) * pl) by (nonlinear_arith)
                                requires
                                    mp < pow2((k - 52) as nat),
                                    pl > 0,
                            ;
                            assert(pow2((k - 52) as nat) * pl == pow2(1022)) by {
                                lemma_pow2_adds((k - 52) as nat, (e - 1) as nat);
                            }
                        }
                        assert(nearest_integer(b) == 0);
                    }
                    HostNum::Int(0)
                }
            } else if k == 53 {
                proof {
                    assert(pow2(53) == 0x20_0000_0000_0000);
                    lemma_small_mod(mp as nat, pow2(53));
                    lemma_fundamental_div_mod_converse(mp as int, pow2(53) as int, 0, mp as int);
                }
                if mp == 0x1f_ffff_ffff_ffff {
                    proof {
                        let pl = pow2((e - 1) as nat) as int;
                        assert((e - 1) as nat == 1021);
                        assert(scale_one() == pow2(53) * pl) by {
                            lemma_pow2_adds(53, (e - 1) as nat);
                        }
                        // p - frac == 2^(e-1) == 2^1021 < 2^1022
                        assert((pow2(53) as int - mp) * pl == pl) by (nonlinear_arith)
                            requires
                                pow2(53) as int - mp == 1,
                        ;
                        assert((scale_one() - magnitude_scaled(b) as int % (scale_one() as int))
                            == (pow2(53) as int - mp) * pl) by (nonlinear_arith)
                            requires
                                magnitude_scaled(b) as int % (scale_one() as int) == mp * pl,
                                scale_one() == pow2(53) * pl,
                        ;
                        assert(pow2(1021) < pow2(1022)) by {
                            lemma_pow2_strictly_increases(1021, 1022);
                        }
                        // and frac itself is at least epsilon
                        assert(mp * pl >= pow2(52) * pl) by (nonlinear_arith)
                            requires
                                mp >= pow2(52),
                                pl > 0,
                        ;
                        assert(pow2(52) * pl == pow2(1073)) by {
                            lemma_pow2_adds(52, 1021);
                        }
                        assert(pow2(1022) <= pow2(1073)) by {
                            lemma_pow2_le(1022, 1073);
                        }
                    }
                    if neg {
                        HostNum::Int(-1)
                    } else {
                        HostNum::Int(1)
                    }
                } else {
                    proof {
                        let pl = pow2((e - 1) as nat) as int;
                        assert((e - 1) as nat == 1021);
                        assert(scale_one() == pow2(53) * pl) by {
                            lemma_pow2_adds(53, 1021);
                        }
                        assert(mp * pl >= pow2(52) * pl) by (nonlinear_arith)
                            requires
                                mp >= pow2(52),
                                pl > 0,
                        ;
                        assert(pow2(52) * pl == pow2(1073)) by {
                            lemma_pow2_adds(52, 1021);
                        }
                        assert(pow2(1022) <= pow2(1073)) by {
                            lemma_pow2_le(1022, 1073);
                        }
                        assert((pow2(53) as int - mp) * pl >= 2 * pl) by (nonlinear_arith)
                            requires
                                pow2(53) as int - mp >= 2,
                                pl > 0,
                        ;
                        assert(2 * pl == pow2(1022)) by {
                            lemma_pow2_adds(1, 1021);
                            vstd::arithmetic::mul::lemma_mul_is_commutative(2, pl);
                        }
                        assert((scale_one() - magnitude_scaled(b) as int % (scale_one() as int))
                            == (pow2(53) as int - mp) * pl) by (nonlinear_arith)
                            requires
                                magnitude_scaled(b) as int % (scale_one() as int) == mp * pl,
                                scale_one() == pow2(53) * pl,
                        ;
                    }
                    HostNum::Float(r)
                }
            } else {
                // 1 <= k <= 52: the low k bits of the mantissa are the remainder
                proof {
                    lemma_u64_shl_is_mul(1u64, k);
                    assert(pow2(k as nat) <= pow2(52)) by {
                        lemma_pow2_le(k as nat, 52);
                    }
                    assert(low_bits_mask(k as nat) == pow2(k as nat) - 1);
                    lemma_u64_low_bits_mask_is_mod(mp, k as nat);
                    assert(pow2(k as nat) <= u64::MAX as nat) by {
                        lemma_pow2_le(k as nat, 52);
                    }
                }
                let mask: u64 = (1u64 << k) - 1;
                if (mp & mask) == 0 {
                    proof {
                        lemma_u64_shr_is_div(mp, k);
                        let pl = pow2((e - 1) as nat) as int;
                        assert(1u64 << k == pow2(k as nat));
                        assert(mask == low_bits_mask(k as nat) as u64);
                        assert(mp % (pow2(k as nat) as u64) == 0);
                        assert((mp as nat) % pow2(k as nat) == 0);
                        assert(((pow2(52) + mantissa_field(b)) as nat) % pow2((1075 - exp_field(b))
                            as nat) == 0);
                        let remf = (((pow2(52) + mantissa_field(b)) as nat) % pow2((1075
                            - exp_field(b)) as nat)) as int;
                        assert(remf * (pow2((exp_field(b) - 1) as nat) as int) == 0)
                            by (nonlinear_arith)
                            requires
                                remf == 0,
                        ;
                        assert(magnitude_scaled(b) as int % (scale_one() as int) == 0);
                        assert(mp as int / (pow2(k as nat) as int) <= mp as int) by {
                            lemma_pow2_pos(k as nat);
                            vstd::arithmetic::div_mod::lemma_div_is_ordered_by_denominator(
                                mp as int,
                                1,
                                pow2(k as nat) as int,
                            );
                            vstd::arithmetic::div_mod::lemma_div_basics(mp as int);
                        }
                    }
                    let mag: u64 = mp >> k;
                    if neg {
                        HostNum::Int(-(mag as i64))
                    } else {
                        HostNum::Int(mag as i64)
                    }
                } else {
                    proof {
                        let pk = pow2(k as nat) as int;
                        let pl = pow2((e - 1) as nat) as int;
                        let rem = (mp % (pow2(k as nat) as u64)) as int;
                        lemma_mod_bound(mp as int, pk);
                        assert(scale_one() == pk * pl) by {
                            lemma_pow2_adds(k as nat, (e - 1) as nat);
                        }
                        assert(rem * pl >= pl) by (nonlinear_arith)
                            requires
                                rem >= 1,
                                pl > 0,
                        ;
                        assert((pk - rem) * pl >= pl) by (nonlinear_arith)
                            requires
                                pk - rem >= 1,
                                pl > 0,
                        ;
                        assert(pl >= pow2(1022)) by {
                            lemma_pow2_le(1022, (e - 1) as nat);
                        }
                        assert((scale_one() - magnitude_scaled(b) as int % (scale_one() as int))
                            == (pk - rem) * pl) by (nonlinear_arith)
                            requires
                                magnitude_scaled(b) as int % (scale_one() as int) == rem * pl,
                                scale_one() == pk * pl,
                        ;
                    }
                    HostNum::Float(r)
                }
            }
        }
    }
}

/// Numeric idempotence, near half: a finite value that lies strictly within
/// epsilon of an integer `n` representable as a host integer normalizes to
/// exactly that integer. (In the scaled model, one unit is 2^1074 and the
/// policy's epsilon is 2^1022.)
pub proof fn lemma_normalize_near_integer(b: u64, n: int)
    requires
        is_finite(b),
        -(scale_epsilon() as int) < value_scaled(b) - n * (scale_one() as int),
        value_scaled(b) - n * (scale_one() as int) < scale_epsilon() as int,
        i64::MIN <= n <= i64::MAX,
    ensures
        normalized_num(b) == HostNum::Int(n as i64),
{
    let p = scale_one() as int;
    let eps = scale_epsilon() as int;
    let v = value_scaled(b);
    let d = v - n * p;
    lemma_pow2_pos(1074);
    lemma_pow2_pos(1022);
    assert(eps + eps < p) by {
        lemma_pow2_adds(1022, 1);
        lemma2_to64();
        lemma_pow2_strictly_increases(1023, 1074);
    }
    if d >= 0 {
        lemma_fundamental_div_mod_converse(v, p, n, d);
        assert(frac_scaled(b) == d);
        assert(nearest_integer(b) == n);
    } else {
        assert(v == (n - 1) * p + (p + d)) by (nonlinear_arith)
            requires
                v == n * p + d,
        ;
        lemma_fundamental_div_mod_converse(v, p, n - 1, p + d);
        assert(frac_scaled(b) == p + d);
        assert(frac_scaled(b) >= eps);
        assert(p - frac_scaled(b) < eps);
        assert(nearest_integer(b) == n);
    }
}

/// Numeric idempotence, far half: a finite value at least epsilon away from
/// every integer normalizes to itself, as a real, bit for bit.
pub proof fn lemma_normalize_far_from_integers(b: u64)
    requires
        is_finite(b),
        forall|n: int|
            !(-(scale_epsilon() as int) < value_scaled(b) - #[trigger] (n * (scale_one() as int))
                && value_scaled(b) - n * (scale_one() as int) < scale_epsilon() as int),
    ensures
        normalized_num(b) == HostNum::Float(Real { bits: b }),
{
    let p = scale_one() as int;
    let eps = scale_epsilon() as int;
    let v = value_scaled(b);
    let q = v / p;
    let f = frac_scaled(b);
    lemma_pow2_pos(1074);
    lemma_pow2_pos(1022);
    lemma_fundamental_div_mod(v, p);
    lemma_mod_bound(v, p);
    assert(eps < p) by {
        lemma_pow2_strictly_increases(1022, 1074);
    }
    if f < eps {
        // the value would be within epsilon of its lower neighbour
        assert(v - q * p == f) by (nonlinear_arith)
            requires
                v == p * q + f,
        ;
        assert(false);
    }
    if p - f < eps {
        // the value would be within epsilon of its upper neighbour
        assert(v - (q + 1) * p == f - p) by (nonlinear_arith)
            requires
                v == p * q + f,
        ;
        assert(false);
    }
    assert(!near_integer(b));
}

} // verus!
