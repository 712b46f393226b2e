//! Scalar exponential, logarithm and power on the fixed-point type.
//!
//! Each function is total and carries an exact algorithmic contract: the
//! result is pinned to a spec-level mirror of the range reduction and
//! truncated series that the executable code performs, so two calls on equal
//! inputs are provably equal and callers can reason about every channel of a
//! derivative computation that goes through them.

use vstd::arithmetic::power2::{lemma2_to64, lemma2_to64_rest, lemma_pow2_strictly_increases, pow2};
use vstd::prelude::*;

use crate::fixed::{add_spec, clip, div_spec, mul_spec, tdiv, Fx, SCALE};

verus! {

/// Mantissa of the natural logarithm of two.
pub const LN2_M: i64 = 2977044472;

/// Inputs above this saturate the exponential.
pub const EXP_MAX_M: i64 = 0x2B_0000_0000;

/// Inputs below this flush the exponential to zero.
pub const EXP_MIN_M: i64 = -0x16_0000_0000;

/// Truncated Maclaurin series of the exponential: term and partial sum after
/// `k` terms beyond the constant one.
pub open spec fn exp_series(r: int, k: nat) -> (int, int)
    decreases k,
{
    if k == 0 {
        (SCALE as int, SCALE as int)
    } else {
        let p = exp_series(r, (k - 1) as nat);
        let t = tdiv(mul_spec(p.0, r), k as int);
        (t, add_spec(p.1, t))
    }
}

/// The exponential: range reduction by the logarithm of two, thirteen series
/// terms, then scaling by a power of two; saturates far out of range.
pub open spec fn exp_spec(x: int) -> int {
    if x > EXP_MAX_M as int {
        i64::MAX as int
    } else if x < EXP_MIN_M as int {
        0
    } else {
        let q = tdiv(x, LN2_M as int);
        let r = x - q * LN2_M;
        let s = exp_series(r, 13).1;
        if q >= 0 {
            clip(s * (pow2(q as nat) as int))
        } else {
            tdiv(s, pow2((-q) as nat) as int)
        }
    }
}

/// Doubling normalization of a mantissa below the unit into `[1, 2)` units;
/// also counts the binary exponent.
pub open spec fn norm_up(m: int) -> (int, int)
    decreases 2 * SCALE - m
        when 1 <= m <= 2 * SCALE
{
    if m >= SCALE as int {
        (m, 0)
    } else {
        let p = norm_up(2 * m);
        (p.0, p.1 - 1)
    }
}

/// Halving normalization of a large mantissa into `[1, 2)` units; also
/// counts the binary exponent.
pub open spec fn norm_down(m: int) -> (int, int)
    decreases m
        when m >= SCALE
{
    if m < 2 * SCALE {
        (m, 0)
    } else {
        let p = norm_down(tdiv(m, 2));
        (p.0, p.1 + 1)
    }
}

/// Truncated odd series of the inverse hyperbolic tangent: the power
/// `y^(2j+1)` and the partial sum through term `j`.
pub open spec fn ln_series(y: int, j: nat) -> (int, int)
    decreases j,
{
    if j == 0 {
        (y, y)
    } else {
        let p = ln_series(y, (j - 1) as nat);
        let yp = mul_spec(mul_spec(p.0, y), y);
        (yp, add_spec(p.1, tdiv(yp, 2 * (j as int) + 1)))
    }
}

/// The natural logarithm: normalization to `[1, 2)`, the inverse hyperbolic
/// tangent series with ten odd terms, and the binary exponent times the
/// logarithm of two. Inputs at or below zero saturate to the smallest value,
/// the analogue of a negative infinity.
pub open spec fn ln_spec(x: int) -> int {
    if x <= 0 {
        i64::MIN as int
    } else {
        let p = if x < SCALE as int {
            norm_up(x)
        } else {
            norm_down(x)
        };
        let m = p.0;
        let k = p.1;
        let y = div_spec(m - SCALE, m + SCALE);
        let s = ln_series(y, 9).1;
        add_spec(clip(s * 2), clip(k * LN2_M))
    }
}

/// The power function through the exponential of a scaled logarithm;
/// non-positive bases give zero.
pub open spec fn pow_spec(x: int, y: int) -> int {
    if x <= 0 {
        0
    } else {
        exp_spec(mul_spec(y, ln_spec(x)))
    }
}

/// Powers of two up to sixty-two stay within the mantissa range.
proof fn lemma_pow2_bound(k: nat)
    requires
        k <= 62,
    ensures
        1 <= pow2(k) <= 0x4000_0000_0000_0000,
{
    lemma2_to64();
    lemma2_to64_rest();
    if k < 62 {
        lemma_pow2_strictly_increases(k, 62);
    }
}

/// A power of two, with its bound.
fn pow2_exec(k: u32) -> (r: i64)
    requires
        k <= 62,
    ensures
        r as int == pow2(k as nat),
        1 <= r <= 0x4000_0000_0000_0000,
    decreases k,
{
    if k == 0 {
        proof {
            lemma2_to64();
        }
        1
    } else {
        let p = pow2_exec(k - 1);
        proof {
            lemma_pow2_bound((k - 1) as nat);
            lemma_pow2_bound(k as nat);
            assert(pow2(k as nat) == 2 * pow2((k - 1) as nat)) by {
                vstd::arithmetic::power2::lemma_pow2_unfold(k as nat);
            };
        }
        2 * p
    }
}

/// The fixed-point exponential.
pub fn exp_fx(x: Fx) -> (r: Fx)
    ensures
        r@ == exp_spec(x@),
{
    if x.m > EXP_MAX_M {
        return Fx { m: i64::MAX };
    }
    if x.m < EXP_MIN_M {
        return Fx { m: 0 };
    }
    let q: i64 = if x.m >= 0 {
        ((x.m as u64) / (LN2_M as u64)) as i64
    } else {
        let bu: u64 = (-x.m) as u64;
        let qu: u64 = bu / (LN2_M as u64);
        assert(qu <= bu);
        -(qu as i64)
    };
    assert(q as int == tdiv(x.m as int, LN2_M as int));
    proof {
        crate::fixed::lemma_tdiv_rem(x.m as int, LN2_M as int);
        let d = LN2_M as int;
        let qi = q as int;
        if qi >= 63 {
            assert(qi * d >= 63 * d) by (nonlinear_arith)
                requires
                    qi >= 63,
                    d > 0,
            ;
            assert(false);
        }
        if qi <= -33 {
            assert(qi * d <= (-33) * d) by (nonlinear_arith)
                requires
                    qi <= -33,
                    d > 0,
            ;
            assert(false);
        }
    }
    let qlp: i128 = crate::fixed::mul_i64(q, LN2_M);
    let rm128: i128 = (x.m as i128) - qlp;
    let rm: i64 = rm128 as i64;
    assert(rm as int == x.m as int - (q as int) * (LN2_M as int));
    let rf = Fx { m: rm };
    let mut term: Fx = Fx::one();
    let mut acc: Fx = Fx::one();
    let mut k: i64 = 0;
    while k < 13
        invariant
            0 <= k <= 13,
            (term@, acc@) == exp_series(rf@, k as nat),
        decreases 13 - k,
    {
        k = k + 1;
        term = term.mul(rf).div_int(k);
        acc = acc.add(term);
    }
    if q >= 0 {
        acc.mul_int(pow2_exec(q as u32))
    } else {
        acc.div_int(pow2_exec((-q) as u32))
    }
}

/// Doubling normalization of a small positive mantissa. The power-of-two
/// product bound keeps the exponent count small.
fn norm_up_exec(m: i64) -> (r: (i64, i64))
    requires
        1 <= m < 2 * SCALE,
    ensures
        (r.0 as int, r.1 as int) == norm_up(m as int),
        SCALE <= r.0 < 2 * SCALE,
        -33 < r.1 <= 0,
        pow2((-r.1) as nat) * m < 2 * SCALE,
    decreases 2 * SCALE - m,
{
    if m >= SCALE {
        proof {
            lemma2_to64();
        }
        (m, 0)
    } else {
        let p = norm_up_exec(2 * m);
        proof {
            let k = (-(p.1 - 1)) as nat;
            vstd::arithmetic::power2::lemma_pow2_unfold(k);
            assert(pow2(k) == 2 * pow2((k - 1) as nat));
            assert(pow2(k) * m == pow2((k - 1) as nat) * (2 * m)) by (nonlinear_arith)
                requires
                    pow2(k) == 2 * pow2((k - 1) as nat),
            ;
            if p.1 - 1 <= -33 {
                lemma2_to64();
                lemma2_to64_rest();
                if k > 33 {
                    lemma_pow2_strictly_increases(33, k);
                }
                assert(pow2(k) >= pow2(33));
                assert(pow2(k) * m >= pow2(33) * 1) by (nonlinear_arith)
                    requires
                        pow2(k) >= pow2(33),
                        m >= 1,
                ;
                assert(false);
            }
        }
        (p.0, p.1 - 1)
    }
}

/// Halving normalization of a large mantissa. The power-of-two product
/// bound keeps the exponent count small.
fn norm_down_exec(m: i64) -> (r: (i64, i64))
    requires
        m >= SCALE,
    ensures
        (r.0 as int, r.1 as int) == norm_down(m as int),
        SCALE <= r.0 < 2 * SCALE,
        0 <= r.1 < 32,
        pow2(r.1 as nat) * SCALE <= m,
    decreases m,
{
    if m < 2 * SCALE {
        proof {
            lemma2_to64();
        }
        (m, 0)
    } else {
        let h: i64 = ((m as u64) / 2u64) as i64;
        assert(h as int == tdiv(m as int, 2));
        let p = norm_down_exec(h);
        proof {
            let k = (p.1 + 1) as nat;
            vstd::arithmetic::power2::lemma_pow2_unfold(k);
            assert(pow2(k) == 2 * pow2((k - 1) as nat));
            assert(2 * (h as int) <= m);
            assert(pow2(k) * SCALE == pow2((k - 1) as nat) * (2 * SCALE)) by (nonlinear_arith)
                requires
                    pow2(k) == 2 * pow2((k - 1) as nat),
            ;
            assert(pow2((k - 1) as nat) * (2 * SCALE) <= 2 * (h as int)) by (nonlinear_arith)
                requires
                    pow2((k - 1) as nat) * SCALE <= h as int,
            ;
            if p.1 + 1 >= 32 {
                lemma2_to64();
                lemma2_to64_rest();
                if k > 32 {
                    lemma_pow2_strictly_increases(32, k);
                }
                assert(pow2(k) >= pow2(32));
                assert(pow2(k) * SCALE >= pow2(32) * SCALE) by (nonlinear_arith)
                    requires
                        pow2(k) >= pow2(32),
                        SCALE as int > 0,
                ;
                assert(false);
            }
        }
        (p.0, p.1 + 1)
    }
}

/// The fixed-point natural logarithm.
pub fn ln_fx(x: Fx) -> (r: Fx)
    ensures
        r@ == ln_spec(x@),
{
    if x.m <= 0 {
        return Fx { m: i64::MIN };
    }
    let p: (i64, i64) = if x.m < SCALE {
        norm_up_exec(x.m)
    } else {
        norm_down_exec(x.m)
    };
    let m = p.0;
    let k = p.1;
    let y = Fx { m: m - SCALE }.div(Fx { m: m + SCALE });
    let mut ypow: Fx = y;
    let mut acc: Fx = y;
    let mut j: i64 = 0;
    while j < 9
        invariant
            0 <= j <= 9,
            (ypow@, acc@) == ln_series(y@, j as nat),
        decreases 9 - j,
    {
        j = j + 1;
        ypow = ypow.mul(y).mul(y);
        acc = acc.add(ypow.div_int(2 * j + 1));
    }
    let doubled = acc.mul_int(2);
    let kl: i128 = crate::fixed::mul_i64(k, LN2_M);
    let klf = Fx { m: crate::fixed::clip_i128(kl) };
    doubled.add(klf)
}

/// The fixed-point power function.
pub fn pow_fx(x: Fx, y: Fx) -> (r: Fx)
    ensures
        r@ == pow_spec(x@, y@),
{
    if x.m <= 0 {
        Fx { m: 0 }
    } else {
        exp_fx(y.mul(ln_fx(x)))
    }
}

} // verus!
