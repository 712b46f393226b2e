//! Exact fixed-point scalar for all reduced-unit quantities.
//!
//! A value is an `i64` mantissa interpreted as `m / SCALE`. All operations
//! are total: results outside the representable range saturate to the largest
//! or smallest representable value, the fixed-point analogue of the infinities
//! that floating-point arithmetic would produce. Division by zero likewise
//! saturates instead of raising, so callers can guard the physical domain
//! themselves. Every operation has an exact integer-level contract.

use vstd::prelude::*;

verus! {

/// Mantissas are interpreted as `m / SCALE`.
pub const SCALE: i64 = 0x1_0000_0000;

/// Saturation of an unbounded integer into the `i64` range.
pub open spec fn clip(x: int) -> int {
    if x > i64::MAX as int {
        i64::MAX as int
    } else if x < i64::MIN as int {
        i64::MIN as int
    } else {
        x
    }
}

/// Division truncated toward zero, for a positive divisor.
pub open spec fn tdiv(a: int, b: int) -> int
    recommends
        b > 0,
{
    if a >= 0 {
        a / b
    } else {
        -((-a) / b)
    }
}

/// Division truncated toward zero, for any nonzero divisor.
pub open spec fn sdiv(a: int, b: int) -> int
    recommends
        b != 0,
{
    if b > 0 {
        tdiv(a, b)
    } else {
        tdiv(-a, -b)
    }
}

/// Mantissa of the saturating fixed-point sum.
pub open spec fn add_spec(a: int, b: int) -> int {
    clip(a + b)
}

/// Mantissa of the saturating fixed-point difference.
pub open spec fn sub_spec(a: int, b: int) -> int {
    clip(a - b)
}

/// Mantissa of the saturating fixed-point product.
pub open spec fn mul_spec(a: int, b: int) -> int {
    clip(tdiv(a * b, SCALE as int))
}

/// Mantissa of the saturating fixed-point quotient; division by zero
/// saturates by the sign of the dividend.
pub open spec fn div_spec(a: int, b: int) -> int {
    if b == 0 {
        if a > 0 {
            i64::MAX as int
        } else if a < 0 {
            i64::MIN as int
        } else {
            0
        }
    } else {
        clip(sdiv(a * SCALE, b))
    }
}

/// `r` is the floor of the square root of `x * SCALE`, so that `r / SCALE`
/// approximates the square root of `x / SCALE` from below.
pub open spec fn is_sqrt(x: int, r: int) -> bool {
    &&& r >= 0
    &&& r * r <= x * SCALE
    &&& x * SCALE < (r + 1) * (r + 1)
}

/// `r` is the integer cube root (toward zero) of `x * SCALE * SCALE`.
pub open spec fn is_cbrt(x: int, r: int) -> bool {
    if x >= 0 {
        &&& r >= 0
        &&& r * r * r <= x * SCALE * SCALE
        &&& x * SCALE * SCALE < (r + 1) * (r + 1) * (r + 1)
    } else {
        &&& r <= 0
        &&& (-r) * (-r) * (-r) <= (-x) * SCALE * SCALE
        &&& (-x) * SCALE * SCALE < (1 - r) * (1 - r) * (1 - r)
    }
}

/// The fixed-point square root as a function: the unique witness of
/// [`is_sqrt`] for nonnegative inputs.
pub open spec fn sqrt_spec(x: int) -> int {
    choose|r: int| is_sqrt(x, r)
}

/// The total square root: zero on negative inputs, as a guarded domain
/// never produces them.
pub open spec fn sqrt_total(x: int) -> int {
    if x >= 0 {
        sqrt_spec(x)
    } else {
        0
    }
}

/// Two witnesses of the square-root characterization agree.
pub proof fn lemma_sqrt_unique(x: int, r1: int, r2: int)
    requires
        is_sqrt(x, r1),
        is_sqrt(x, r2),
    ensures
        r1 == r2,
{
    if r1 < r2 {
        assert((r1 + 1) * (r1 + 1) <= r2 * r2) by (nonlinear_arith)
            requires
                0 <= r1,
                r1 + 1 <= r2,
        ;
    }
    if r2 < r1 {
        assert((r2 + 1) * (r2 + 1) <= r1 * r1) by (nonlinear_arith)
            requires
                0 <= r2,
                r2 + 1 <= r1,
        ;
    }
}

/// Fixed-point scalar in reduced units.
#[derive(Clone, Copy, PartialEq, Eq, Structural, Debug, Hash)]
pub struct Fx {
    pub m: i64,
}

impl View for Fx {
    type V = int;

    open spec fn view(&self) -> int {
        self.m as int
    }
}

/// The mantissas of a sequence of scalars.
pub open spec fn seq_m(s: Seq<Fx>) -> Seq<int> {
    s.map_values(|x: Fx| x@)
}

/// Saturation of an `i128` quotient into the mantissa range.
pub fn clip_i128(q: i128) -> (r: i64)
    ensures
        r as int == clip(q as int),
{
    if q > i64::MAX as i128 {
        i64::MAX
    } else if q < i64::MIN as i128 {
        i64::MIN
    } else {
        q as i64
    }
}

/// Exact `i128` product of two mantissas.
pub fn mul_i64(a: i64, b: i64) -> (p: i128)
    ensures
        p as int == (a as int) * (b as int),
        -0x4000_0000_0000_0000_0000_0000_0000_0000 < p
            <= 0x4000_0000_0000_0000_0000_0000_0000_0000,
{
    proof {
        assert(-0x4000_0000_0000_0000_0000_0000_0000_0000 < (a as int) * (b as int)
            <= 0x4000_0000_0000_0000_0000_0000_0000_0000) by (nonlinear_arith)
            requires
                -0x8000_0000_0000_0000 <= a as int <= 0x7fff_ffff_ffff_ffff,
                -0x8000_0000_0000_0000 <= b as int <= 0x7fff_ffff_ffff_ffff,
        ;
    }
    (a as i128) * (b as i128)
}

/// Truncated division of a bounded `i128` by a positive divisor.
fn tdiv128(p: i128, d: i128) -> (q: i128)
    requires
        d > 0,
        -0x4000_0000_0000_0000_0000_0000_0000_0000 < p
            <= 0x4000_0000_0000_0000_0000_0000_0000_0000,
    ensures
        q as int == tdiv(p as int, d as int),
{
    if p >= 0 {
        let pu: u128 = p as u128;
        let du: u128 = d as u128;
        let qu: u128 = pu / du;
        assert(qu <= pu);
        qu as i128
    } else {
        let pu: u128 = (-p) as u128;
        let du: u128 = d as u128;
        let qu: u128 = pu / du;
        assert(qu <= pu);
        -(qu as i128)
    }
}

impl Fx {
    /// The zero scalar.
    pub fn zero() -> (r: Fx)
        ensures
            r@ == 0,
    {
        Fx { m: 0 }
    }

    /// The unit scalar.
    pub fn one() -> (r: Fx)
        ensures
            r@ == SCALE as int,
    {
        Fx { m: SCALE }
    }

    /// The scalar of a small integer.
    pub fn from_int(i: i64) -> (r: Fx)
        ensures
            r@ == clip(i * SCALE),
    {
        let p: i128 = mul_i64(i, SCALE);
        Fx { m: clip_i128(p) }
    }

    /// The scalar of a count, saturating for counts beyond the
    /// representable range.
    pub fn from_usize(n: usize) -> (r: Fx)
        ensures
            r@ == clip(n * SCALE),
    {
        if n > 0x7fff_ffff {
            proof {
                assert((0x8000_0000int) * (SCALE as int) > i64::MAX) by (nonlinear_arith)
                    requires
                        SCALE as int == 0x1_0000_0000,
                ;
                assert(n as int * (SCALE as int) >= (0x8000_0000int) * (SCALE as int))
                    by (nonlinear_arith)
                    requires
                        n as int >= 0x8000_0000,
                        SCALE as int > 0,
                ;
            }
            Fx { m: i64::MAX }
        } else {
            Fx::from_int(n as i64)
        }
    }

    /// The scalar of an integer ratio.
    pub fn from_ratio(num: i64, den: i64) -> (r: Fx)
        ensures
            r@ == div_spec(clip(num * SCALE), clip(den * SCALE)),
    {
        Fx::from_int(num).div(Fx::from_int(den))
    }

    /// Saturating negation.
    pub fn neg(self) -> (r: Fx)
        ensures
            r@ == clip(-self@),
    {
        if self.m == i64::MIN {
            Fx { m: i64::MAX }
        } else {
            Fx { m: -self.m }
        }
    }

    /// Saturating absolute value.
    pub fn abs(self) -> (r: Fx)
        ensures
            r@ == if self@ >= 0 {
                self@
            } else {
                clip(-self@)
            },
    {
        if self.m >= 0 {
            self
        } else {
            self.neg()
        }
    }

    /// Saturating sum.
    pub fn add(self, o: Fx) -> (r: Fx)
        ensures
            r@ == add_spec(self@, o@),
    {
        let a = self.m;
        let b = o.m;
        if a >= 0 && b > i64::MAX - a {
            Fx { m: i64::MAX }
        } else if a < 0 && b < i64::MIN - a {
            Fx { m: i64::MIN }
        } else {
            Fx { m: a + b }
        }
    }

    /// Saturating difference.
    pub fn sub(self, o: Fx) -> (r: Fx)
        ensures
            r@ == sub_spec(self@, o@),
    {
        let a = self.m;
        let b = o.m;
        if b >= 0 && a < i64::MIN + b {
            Fx { m: i64::MIN }
        } else if b < 0 && a > i64::MAX + b {
            Fx { m: i64::MAX }
        } else {
            Fx { m: a - b }
        }
    }

    /// Saturating fixed-point product.
    pub fn mul(self, o: Fx) -> (r: Fx)
        ensures
            r@ == mul_spec(self@, o@),
    {
        let p: i128 = mul_i64(self.m, o.m);
        let q: i128 = tdiv128(p, SCALE as i128);
        Fx { m: clip_i128(q) }
    }

    /// Saturating fixed-point quotient; division by zero saturates by the
    /// sign of the dividend.
    pub fn div(self, o: Fx) -> (r: Fx)
        ensures
            r@ == div_spec(self@, o@),
    {
        if o.m == 0 {
            if self.m > 0 {
                Fx { m: i64::MAX }
            } else if self.m < 0 {
                Fx { m: i64::MIN }
            } else {
                Fx { m: 0 }
            }
        } else {
            let num: i128 = mul_i64(self.m, SCALE);
            if o.m > 0 {
                let q: i128 = tdiv128(num, o.m as i128);
                Fx { m: clip_i128(q) }
            } else {
                let q: i128 = tdiv128(-num, -(o.m as i128));
                Fx { m: clip_i128(q) }
            }
        }
    }

    /// Saturating product with a small integer.
    pub fn mul_int(self, k: i64) -> (r: Fx)
        ensures
            r@ == clip(self@ * k),
    {
        let p: i128 = mul_i64(self.m, k);
        Fx { m: clip_i128(p) }
    }

    /// Exact truncated division by a positive integer.
    pub fn div_int(self, k: i64) -> (r: Fx)
        requires
            k > 0,
        ensures
            r@ == tdiv(self@, k as int),
    {
        let q: i128 = tdiv128(self.m as i128, k as i128);
        assert(-0x8000_0000_0000_0000 <= q <= 0x7fff_ffff_ffff_ffff) by {
            assert(tdiv(self.m as int, k as int) == q as int);
        };
        Fx { m: q as i64 }
    }

    /// Strictly-less comparison of the represented values.
    pub fn lt(self, o: Fx) -> (r: bool)
        ensures
            r == (self@ < o@),
    {
        self.m < o.m
    }

    /// Less-or-equal comparison of the represented values.
    pub fn le(self, o: Fx) -> (r: bool)
        ensures
            r == (self@ <= o@),
    {
        self.m <= o.m
    }

    /// Whether the value is strictly positive.
    pub fn is_pos(self) -> (r: bool)
        ensures
            r == (self@ > 0),
    {
        self.m > 0
    }

    /// Whether the value is strictly negative.
    pub fn is_neg(self) -> (r: bool)
        ensures
            r == (self@ < 0),
    {
        self.m < 0
    }

    /// Whether the value is zero.
    pub fn is_zero(self) -> (r: bool)
        ensures
            r == (self@ == 0),
    {
        self.m == 0
    }

    /// The midpoint of two values, truncated toward zero.
    pub fn midpoint(self, o: Fx) -> (r: Fx)
        ensures
            r@ == tdiv(add_spec(self@, o@), 2),
    {
        self.add(o).div_int(2)
    }

    /// Fixed-point square root from below; negative inputs give zero, as a
    /// guarded domain would never produce them.
    pub fn sqrt(self) -> (r: Fx)
        ensures
            self@ >= 0 ==> is_sqrt(self@, r@),
            r@ == sqrt_total(self@),
            self@ < 0 ==> r@ == 0,
    {
        if self.m < 0 {
            return Fx { m: 0 };
        }
        let x: u128 = (self.m as u128) * (SCALE as u128);
        assert(x < 0x1_0000_0000_0000_0000_0000_0000u128) by {
            assert((self.m as int) * (SCALE as int) < 0x8000_0000_0000_0000 * 0x1_0000_0000)
                by (nonlinear_arith)
                requires
                    self.m as int <= i64::MAX as int,
                    SCALE as int == 0x1_0000_0000,
            ;
        };
        let ghost xi: int = x as int;
        let mut lo: u128 = 0;
        let mut hi: u128 = 0x1_0000_0000_0000u128;
        assert((hi as int) * (hi as int) > xi) by (nonlinear_arith)
            requires
                hi == 0x1_0000_0000_0000u128,
                xi < 0x1_0000_0000_0000_0000_0000_0000,
        ;
        while hi - lo > 1
            invariant
                lo < hi,
                hi <= 0x1_0000_0000_0000u128,
                (lo as int) * (lo as int) <= xi,
                (hi as int) * (hi as int) > xi,
                xi == x as int,
                x == self.m as u128 * (SCALE as u128),
            decreases hi - lo,
        {
            let mid: u128 = lo + (hi - lo) / 2;
            assert(lo < mid < hi);
            assert((mid as int) * (mid as int) < 0x1_0000_0000_0000_0000_0000_0000_0000_0000)
                by (nonlinear_arith)
                requires
                    mid as int <= 0x1_0000_0000_0000,
            ;
            if mid * mid <= x {
                lo = mid;
            } else {
                hi = mid;
            }
        }
        assert(hi == lo + 1);
        let r = Fx { m: lo as i64 };
        assert(is_sqrt(self@, r@)) by {
            assert(xi == self@ * (SCALE as int));
            assert(r@ == lo as int);
            assert((lo as int) * (lo as int) <= self@ * SCALE);
            assert(self@ * SCALE < (lo as int + 1) * (lo as int + 1));
        };
        proof {
            assert(is_sqrt(self@, sqrt_spec(self@))) by {
                assert(exists|w: int| is_sqrt(self@, w)) by {
                    assert(is_sqrt(self@, r@));
                };
            };
            lemma_sqrt_unique(self@, r@, sqrt_spec(self@));
        }
        r
    }
}

/// Multiplying by the unit scalar is the identity on mantissas.
pub proof fn lemma_mul_one(a: int)
    requires
        i64::MIN <= a <= i64::MAX,
    ensures
        mul_spec(a, SCALE as int) == a,
{
    let s = SCALE as int;
    if a >= 0 {
        assert(a * s / s == a) by (nonlinear_arith)
            requires
                a >= 0,
                s == 0x1_0000_0000,
        ;
    } else {
        assert((-(a * s)) == (-a) * s) by (nonlinear_arith);
        assert((-a) * s / s == -a) by (nonlinear_arith)
            requires
                -a >= 0,
                s == 0x1_0000_0000,
        ;
    }
}

/// Truncated division leaves a remainder smaller than the divisor, on the
/// side of zero.
pub proof fn lemma_tdiv_rem(a: int, d: int)
    requires
        d > 0,
    ensures
        -d < a - tdiv(a, d) * d < d,
        a >= 0 ==> a - tdiv(a, d) * d >= 0,
        a <= 0 ==> a - tdiv(a, d) * d <= 0,
{
    if a >= 0 {
        let q = a / d;
        vstd::arithmetic::div_mod::lemma_fundamental_div_mod(a, d);
        vstd::arithmetic::div_mod::lemma_mod_bound(a, d);
        assert(a == d * q + a % d);
        assert(tdiv(a, d) == q);
        assert(q * d == d * q) by (nonlinear_arith);
    } else {
        let b = -a;
        let q = b / d;
        vstd::arithmetic::div_mod::lemma_fundamental_div_mod(b, d);
        vstd::arithmetic::div_mod::lemma_mod_bound(b, d);
        assert(b == d * q + b % d);
        assert(tdiv(a, d) == -q);
        assert((-q) * d == -(d * q)) by (nonlinear_arith);
    }
}

/// The fixed-point product is commutative.
pub proof fn lemma_mul_comm(a: int, b: int)
    ensures
        mul_spec(a, b) == mul_spec(b, a),
{
    assert(a * b == b * a) by (nonlinear_arith);
}

} // verus!
