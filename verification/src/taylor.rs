//! Truncated two-variable Taylor arithmetic: the dual-number type that
//! carries a value together with its temperature derivatives (to second
//! order) and volume derivatives (to fourth order), including mixed terms.
//!
//! A `Td` stores Taylor coefficients `a_ij`: the mixed partial derivative
//! of order `i` in temperature and `j` in volume, divided by `i! * j!`.
//! Products are truncated convolutions, so every calculus rule (product,
//! quotient, chain rule for `exp` and `ln`) holds exactly at the level of
//! the fixed-point arithmetic; nothing is approximated by finite
//! differences.

use vstd::prelude::*;

use crate::fixed::{add_spec, clip, div_spec, mul_spec, sub_spec, tdiv, Fx, SCALE};
use crate::transcend::{exp_spec, ln_spec};

verus! {

/// Ghost image of a Taylor value: one mantissa per coefficient.
pub struct TdS {
    pub a00: int,
    pub a01: int,
    pub a02: int,
    pub a03: int,
    pub a04: int,
    pub a10: int,
    pub a11: int,
    pub a12: int,
    pub a13: int,
    pub a14: int,
    pub a20: int,
    pub a21: int,
    pub a22: int,
    pub a23: int,
    pub a24: int,
}

/// Taylor value in (temperature, volume).
#[derive(Clone, Copy, PartialEq, Eq, Structural, Debug)]
pub struct Td {
    pub a00: Fx,
    pub a01: Fx,
    pub a02: Fx,
    pub a03: Fx,
    pub a04: Fx,
    pub a10: Fx,
    pub a11: Fx,
    pub a12: Fx,
    pub a13: Fx,
    pub a14: Fx,
    pub a20: Fx,
    pub a21: Fx,
    pub a22: Fx,
    pub a23: Fx,
    pub a24: Fx,
}

impl View for Td {
    type V = TdS;

    open spec fn view(&self) -> TdS {
        TdS {
            a00: self.a00@,
            a01: self.a01@,
            a02: self.a02@,
            a03: self.a03@,
            a04: self.a04@,
            a10: self.a10@,
            a11: self.a11@,
            a12: self.a12@,
            a13: self.a13@,
            a14: self.a14@,
            a20: self.a20@,
            a21: self.a21@,
            a22: self.a22@,
            a23: self.a23@,
            a24: self.a24@,
        }
    }
}

/// A constant: zero in every derivative channel.
pub open spec fn td_const_spec(c: int) -> TdS {
    TdS {
        a00: c,
        a01: 0,
        a02: 0,
        a03: 0,
        a04: 0,
        a10: 0,
        a11: 0,
        a12: 0,
        a13: 0,
        a14: 0,
        a20: 0,
        a21: 0,
        a22: 0,
        a23: 0,
        a24: 0,
    }
}

/// Coefficient-wise saturating sum.
pub open spec fn td_add(x: TdS, y: TdS) -> TdS {
    TdS {
        a00: add_spec(x.a00, y.a00),
        a01: add_spec(x.a01, y.a01),
        a02: add_spec(x.a02, y.a02),
        a03: add_spec(x.a03, y.a03),
        a04: add_spec(x.a04, y.a04),
        a10: add_spec(x.a10, y.a10),
        a11: add_spec(x.a11, y.a11),
        a12: add_spec(x.a12, y.a12),
        a13: add_spec(x.a13, y.a13),
        a14: add_spec(x.a14, y.a14),
        a20: add_spec(x.a20, y.a20),
        a21: add_spec(x.a21, y.a21),
        a22: add_spec(x.a22, y.a22),
        a23: add_spec(x.a23, y.a23),
        a24: add_spec(x.a24, y.a24),
    }
}

/// Coefficient-wise saturating difference.
pub open spec fn td_sub(x: TdS, y: TdS) -> TdS {
    TdS {
        a00: sub_spec(x.a00, y.a00),
        a01: sub_spec(x.a01, y.a01),
        a02: sub_spec(x.a02, y.a02),
        a03: sub_spec(x.a03, y.a03),
        a04: sub_spec(x.a04, y.a04),
        a10: sub_spec(x.a10, y.a10),
        a11: sub_spec(x.a11, y.a11),
        a12: sub_spec(x.a12, y.a12),
        a13: sub_spec(x.a13, y.a13),
        a14: sub_spec(x.a14, y.a14),
        a20: sub_spec(x.a20, y.a20),
        a21: sub_spec(x.a21, y.a21),
        a22: sub_spec(x.a22, y.a22),
        a23: sub_spec(x.a23, y.a23),
        a24: sub_spec(x.a24, y.a24),
    }
}

/// Coefficient-wise saturating negation.
pub open spec fn td_neg(x: TdS) -> TdS {
    TdS {
        a00: clip(-x.a00),
        a01: clip(-x.a01),
        a02: clip(-x.a02),
        a03: clip(-x.a03),
        a04: clip(-x.a04),
        a10: clip(-x.a10),
        a11: clip(-x.a11),
        a12: clip(-x.a12),
        a13: clip(-x.a13),
        a14: clip(-x.a14),
        a20: clip(-x.a20),
        a21: clip(-x.a21),
        a22: clip(-x.a22),
        a23: clip(-x.a23),
        a24: clip(-x.a24),
    }
}

/// Product with a scalar, applied to every coefficient.
pub open spec fn td_scale(x: TdS, s: int) -> TdS {
    TdS {
        a00: mul_spec(x.a00, s),
        a01: mul_spec(x.a01, s),
        a02: mul_spec(x.a02, s),
        a03: mul_spec(x.a03, s),
        a04: mul_spec(x.a04, s),
        a10: mul_spec(x.a10, s),
        a11: mul_spec(x.a11, s),
        a12: mul_spec(x.a12, s),
        a13: mul_spec(x.a13, s),
        a14: mul_spec(x.a14, s),
        a20: mul_spec(x.a20, s),
        a21: mul_spec(x.a21, s),
        a22: mul_spec(x.a22, s),
        a23: mul_spec(x.a23, s),
        a24: mul_spec(x.a24, s),
    }
}

/// Product with a small integer, applied to every coefficient.
pub open spec fn td_scale_int(x: TdS, k: int) -> TdS {
    TdS {
        a00: clip(x.a00 * k),
        a01: clip(x.a01 * k),
        a02: clip(x.a02 * k),
        a03: clip(x.a03 * k),
        a04: clip(x.a04 * k),
        a10: clip(x.a10 * k),
        a11: clip(x.a11 * k),
        a12: clip(x.a12 * k),
        a13: clip(x.a13 * k),
        a14: clip(x.a14 * k),
        a20: clip(x.a20 * k),
        a21: clip(x.a21 * k),
        a22: clip(x.a22 * k),
        a23: clip(x.a23 * k),
        a24: clip(x.a24 * k),
    }
}

/// Exact truncated division by a positive integer, coefficient-wise.
pub open spec fn td_div_int(x: TdS, k: int) -> TdS {
    TdS {
        a00: tdiv(x.a00, k),
        a01: tdiv(x.a01, k),
        a02: tdiv(x.a02, k),
        a03: tdiv(x.a03, k),
        a04: tdiv(x.a04, k),
        a10: tdiv(x.a10, k),
        a11: tdiv(x.a11, k),
        a12: tdiv(x.a12, k),
        a13: tdiv(x.a13, k),
        a14: tdiv(x.a14, k),
        a20: tdiv(x.a20, k),
        a21: tdiv(x.a21, k),
        a22: tdiv(x.a22, k),
        a23: tdiv(x.a23, k),
        a24: tdiv(x.a24, k),
    }
}

/// Truncated convolution: the product rule for all mixed derivatives.
#[verifier::opaque]
pub open spec fn td_mul(x: TdS, y: TdS) -> TdS {
    TdS {
        a00: mul_spec(x.a00, y.a00),
        a01: add_spec(mul_spec(x.a00, y.a01), mul_spec(x.a01, y.a00)),
        a02: add_spec(add_spec(mul_spec(x.a00, y.a02), mul_spec(x.a01, y.a01)), mul_spec(x.a02, y.a00)),
        a03: add_spec(add_spec(add_spec(mul_spec(x.a00, y.a03), mul_spec(x.a01, y.a02)), mul_spec(x.a02, y.a01)), mul_spec(x.a03, y.a00)),
        a04: add_spec(add_spec(add_spec(add_spec(mul_spec(x.a00, y.a04), mul_spec(x.a01, y.a03)), mul_spec(x.a02, y.a02)), mul_spec(x.a03, y.a01)), mul_spec(x.a04, y.a00)),
        a10: add_spec(mul_spec(x.a00, y.a10), mul_spec(x.a10, y.a00)),
        a11: add_spec(add_spec(add_spec(mul_spec(x.a00, y.a11), mul_spec(x.a01, y.a10)), mul_spec(x.a10, y.a01)), mul_spec(x.a11, y.a00)),
        a12: add_spec(add_spec(add_spec(add_spec(add_spec(mul_spec(x.a00, y.a12), mul_spec(x.a01, y.a11)), mul_spec(x.a02, y.a10)), mul_spec(x.a10, y.a02)), mul_spec(x.a11, y.a01)), mul_spec(x.a12, y.a00)),
        a13: add_spec(add_spec(add_spec(add_spec(add_spec(add_spec(add_spec(mul_spec(x.a00, y.a13), mul_spec(x.a01, y.a12)), mul_spec(x.a02, y.a11)), mul_spec(x.a03, y.a10)), mul_spec(x.a10, y.a03)), mul_spec(x.a11, y.a02)), mul_spec(x.a12, y.a01)), mul_spec(x.a13, y.a00)),
        a14: add_spec(add_spec(add_spec(add_spec(add_spec(add_spec(add_spec(add_spec(add_spec(mul_spec(x.a00, y.a14), mul_spec(x.a01, y.a13)), mul_spec(x.a02, y.a12)), mul_spec(x.a03, y.a11)), mul_spec(x.a04, y.a10)), mul_spec(x.a10, y.a04)), mul_spec(x.a11, y.a03)), mul_spec(x.a12, y.a02)), mul_spec(x.a13, y.a01)), mul_spec(x.a14, y.a00)),
        a20: add_spec(add_spec(mul_spec(x.a00, y.a20), mul_spec(x.a10, y.a10)), mul_spec(x.a20, y.a00)),
        a21: add_spec(add_spec(add_spec(add_spec(add_spec(mul_spec(x.a00, y.a21), mul_spec(x.a01, y.a20)), mul_spec(x.a10, y.a11)), mul_spec(x.a11, y.a10)), mul_spec(x.a20, y.a01)), mul_spec(x.a21, y.a00)),
        a22: add_spec(add_spec(add_spec(add_spec(add_spec(add_spec(add_spec(add_spec(mul_spec(x.a00, y.a22), mul_spec(x.a01, y.a21)), mul_spec(x.a02, y.a20)), mul_spec(x.a10, y.a12)), mul_spec(x.a11, y.a11)), mul_spec(x.a12, y.a10)), mul_spec(x.a20, y.a02)), mul_spec(x.a21, y.a01)), mul_spec(x.a22, y.a00)),
        a23: add_spec(add_spec(add_spec(add_spec(add_spec(add_spec(add_spec(add_spec(add_spec(add_spec(add_spec(mul_spec(x.a00, y.a23), mul_spec(x.a01, y.a22)), mul_spec(x.a02, y.a21)), mul_spec(x.a03, y.a20)), mul_spec(x.a10, y.a13)), mul_spec(x.a11, y.a12)), mul_spec(x.a12, y.a11)), mul_spec(x.a13, y.a10)), mul_spec(x.a20, y.a03)), mul_spec(x.a21, y.a02)), mul_spec(x.a22, y.a01)), mul_spec(x.a23, y.a00)),
        a24: add_spec(add_spec(add_spec(add_spec(add_spec(add_spec(add_spec(add_spec(add_spec(add_spec(add_spec(add_spec(add_spec(add_spec(mul_spec(x.a00, y.a24), mul_spec(x.a01, y.a23)), mul_spec(x.a02, y.a22)), mul_spec(x.a03, y.a21)), mul_spec(x.a04, y.a20)), mul_spec(x.a10, y.a14)), mul_spec(x.a11, y.a13)), mul_spec(x.a12, y.a12)), mul_spec(x.a13, y.a11)), mul_spec(x.a14, y.a10)), mul_spec(x.a20, y.a04)), mul_spec(x.a21, y.a03)), mul_spec(x.a22, y.a02)), mul_spec(x.a23, y.a01)), mul_spec(x.a24, y.a00)),
    }
}

/// The zero-constant part of `x`: its distance from its own value.
pub open spec fn td_nil(x: TdS) -> TdS {
    td_sub(x, td_const_spec(x.a00))
}

/// Reciprocal by the truncated geometric series: with `z` the relative
/// deviation from the value channel, `1/x = (1 - z + z^2 - ... + z^6)/x00`.
#[verifier::opaque]
pub open spec fn td_recip(x: TdS) -> TdS {
    let i0 = div_spec(SCALE as int, x.a00);
    let z = td_scale(td_nil(x), i0);
    let z2 = td_mul(z, z);
    let z3 = td_mul(z2, z);
    let z4 = td_mul(z3, z);
    let z5 = td_mul(z4, z);
    let z6 = td_mul(z5, z);
    let s = td_add(td_sub(td_add(td_sub(td_add(td_sub(td_const_spec(SCALE as int), z), z2), z3), z4), z5), z6);
    td_scale(s, i0)
}

/// Exponential by the truncated series on the nilpotent part, scaled by
/// the scalar exponential of the value channel.
#[verifier::opaque]
pub open spec fn td_exp(x: TdS) -> TdS {
    let e = exp_spec(x.a00);
    let z = td_nil(x);
    let z2 = td_mul(z, z);
    let z3 = td_mul(z2, z);
    let z4 = td_mul(z3, z);
    let z5 = td_mul(z4, z);
    let z6 = td_mul(z5, z);
    let s = td_add(td_add(td_add(td_add(td_add(td_add(td_const_spec(SCALE as int), z), td_div_int(z2, 2)), td_div_int(z3, 6)), td_div_int(z4, 24)), td_div_int(z5, 120)), td_div_int(z6, 720));
    td_scale(s, e)
}

/// Logarithm by the truncated Mercator series on the relative deviation,
/// shifted by the scalar logarithm of the value channel.
#[verifier::opaque]
pub open spec fn td_ln(x: TdS) -> TdS {
    let i0 = div_spec(SCALE as int, x.a00);
    let z = td_scale(td_nil(x), i0);
    let z2 = td_mul(z, z);
    let z3 = td_mul(z2, z);
    let z4 = td_mul(z3, z);
    let z5 = td_mul(z4, z);
    let z6 = td_mul(z5, z);
    let s = td_sub(td_add(td_sub(td_add(td_sub(z, td_div_int(z2, 2)), td_div_int(z3, 3)), td_div_int(z4, 4)), td_div_int(z5, 5)), td_div_int(z6, 6));
    td_add(s, td_const_spec(ln_spec(x.a00)))
}

impl Td {
    /// The constant Taylor value of a scalar.
    pub fn constant(c: Fx) -> (r: Td)
        ensures
            r@ == td_const_spec(c@),
    {
        Td {
            a00: c,
            a01: Fx::zero(),
            a02: Fx::zero(),
            a03: Fx::zero(),
            a04: Fx::zero(),
            a10: Fx::zero(),
            a11: Fx::zero(),
            a12: Fx::zero(),
            a13: Fx::zero(),
            a14: Fx::zero(),
            a20: Fx::zero(),
            a21: Fx::zero(),
            a22: Fx::zero(),
            a23: Fx::zero(),
            a24: Fx::zero(),
        }
    }

    /// The temperature variable: value `t`, unit first temperature
    /// derivative.
    pub fn var_t(t: Fx) -> (r: Td)
        ensures
            r@ == (TdS { a10: SCALE as int, ..td_const_spec(t@) }),
    {
        Td {
            a00: t,
            a01: Fx::zero(),
            a02: Fx::zero(),
            a03: Fx::zero(),
            a04: Fx::zero(),
            a10: Fx::one(),
            a11: Fx::zero(),
            a12: Fx::zero(),
            a13: Fx::zero(),
            a14: Fx::zero(),
            a20: Fx::zero(),
            a21: Fx::zero(),
            a22: Fx::zero(),
            a23: Fx::zero(),
            a24: Fx::zero(),
        }
    }

    /// The volume variable: value `v`, unit first volume derivative.
    pub fn var_v(v: Fx) -> (r: Td)
        ensures
            r@ == (TdS { a01: SCALE as int, ..td_const_spec(v@) }),
    {
        Td {
            a00: v,
            a01: Fx::one(),
            a02: Fx::zero(),
            a03: Fx::zero(),
            a04: Fx::zero(),
            a10: Fx::zero(),
            a11: Fx::zero(),
            a12: Fx::zero(),
            a13: Fx::zero(),
            a14: Fx::zero(),
            a20: Fx::zero(),
            a21: Fx::zero(),
            a22: Fx::zero(),
            a23: Fx::zero(),
            a24: Fx::zero(),
        }
    }

    /// Coefficient-wise saturating sum.
    pub fn add(self, o: Td) -> (r: Td)
        ensures
            r@ == td_add(self@, o@),
    {
        Td {
            a00: self.a00.add(o.a00),
            a01: self.a01.add(o.a01),
            a02: self.a02.add(o.a02),
            a03: self.a03.add(o.a03),
            a04: self.a04.add(o.a04),
            a10: self.a10.add(o.a10),
            a11: self.a11.add(o.a11),
            a12: self.a12.add(o.a12),
            a13: self.a13.add(o.a13),
            a14: self.a14.add(o.a14),
            a20: self.a20.add(o.a20),
            a21: self.a21.add(o.a21),
            a22: self.a22.add(o.a22),
            a23: self.a23.add(o.a23),
            a24: self.a24.add(o.a24),
        }
    }

    /// Coefficient-wise saturating difference.
    pub fn sub(self, o: Td) -> (r: Td)
        ensures
            r@ == td_sub(self@, o@),
    {
        Td {
            a00: self.a00.sub(o.a00),
            a01: self.a01.sub(o.a01),
            a02: self.a02.sub(o.a02),
            a03: self.a03.sub(o.a03),
            a04: self.a04.sub(o.a04),
            a10: self.a10.sub(o.a10),
            a11: self.a11.sub(o.a11),
            a12: self.a12.sub(o.a12),
            a13: self.a13.sub(o.a13),
            a14: self.a14.sub(o.a14),
            a20: self.a20.sub(o.a20),
            a21: self.a21.sub(o.a21),
            a22: self.a22.sub(o.a22),
            a23: self.a23.sub(o.a23),
            a24: self.a24.sub(o.a24),
        }
    }

    /// Coefficient-wise saturating negation.
    pub fn neg(self) -> (r: Td)
        ensures
            r@ == td_neg(self@),
    {
        Td {
            a00: self.a00.neg(),
            a01: self.a01.neg(),
            a02: self.a02.neg(),
            a03: self.a03.neg(),
            a04: self.a04.neg(),
            a10: self.a10.neg(),
            a11: self.a11.neg(),
            a12: self.a12.neg(),
            a13: self.a13.neg(),
            a14: self.a14.neg(),
            a20: self.a20.neg(),
            a21: self.a21.neg(),
            a22: self.a22.neg(),
            a23: self.a23.neg(),
            a24: self.a24.neg(),
        }
    }

    /// Product with a scalar, applied to every coefficient.
    pub fn scale(self, s: Fx) -> (r: Td)
        ensures
            r@ == td_scale(self@, s@),
    {
        Td {
            a00: self.a00.mul(s),
            a01: self.a01.mul(s),
            a02: self.a02.mul(s),
            a03: self.a03.mul(s),
            a04: self.a04.mul(s),
            a10: self.a10.mul(s),
            a11: self.a11.mul(s),
            a12: self.a12.mul(s),
            a13: self.a13.mul(s),
            a14: self.a14.mul(s),
            a20: self.a20.mul(s),
            a21: self.a21.mul(s),
            a22: self.a22.mul(s),
            a23: self.a23.mul(s),
            a24: self.a24.mul(s),
        }
    }

    /// Product with a small integer, applied to every coefficient.
    pub fn scale_int(self, k: i64) -> (r: Td)
        ensures
            r@ == td_scale_int(self@, k as int),
    {
        Td {
            a00: self.a00.mul_int(k),
            a01: self.a01.mul_int(k),
            a02: self.a02.mul_int(k),
            a03: self.a03.mul_int(k),
            a04: self.a04.mul_int(k),
            a10: self.a10.mul_int(k),
            a11: self.a11.mul_int(k),
            a12: self.a12.mul_int(k),
            a13: self.a13.mul_int(k),
            a14: self.a14.mul_int(k),
            a20: self.a20.mul_int(k),
            a21: self.a21.mul_int(k),
            a22: self.a22.mul_int(k),
            a23: self.a23.mul_int(k),
            a24: self.a24.mul_int(k),
        }
    }

    /// Exact truncated division by a positive integer, coefficient-wise.
    pub fn div_int(self, k: i64) -> (r: Td)
        requires
            k > 0,
        ensures
            r@ == td_div_int(self@, k as int),
    {
        Td {
            a00: self.a00.div_int(k),
            a01: self.a01.div_int(k),
            a02: self.a02.div_int(k),
            a03: self.a03.div_int(k),
            a04: self.a04.div_int(k),
            a10: self.a10.div_int(k),
            a11: self.a11.div_int(k),
            a12: self.a12.div_int(k),
            a13: self.a13.div_int(k),
            a14: self.a14.div_int(k),
            a20: self.a20.div_int(k),
            a21: self.a21.div_int(k),
            a22: self.a22.div_int(k),
            a23: self.a23.div_int(k),
            a24: self.a24.div_int(k),
        }
    }

    /// Truncated convolution: the product rule for all mixed derivatives.
    pub fn mul(self, o: Td) -> (r: Td)
        ensures
            r@ == td_mul(self@, o@),
    {
        proof {
            reveal(td_mul);
        }
        Td {
            a00: self.a00.mul(o.a00),
            a01: self.a00.mul(o.a01).add(self.a01.mul(o.a00)),
            a02: self.a00.mul(o.a02).add(self.a01.mul(o.a01)).add(self.a02.mul(o.a00)),
            a03: self.a00.mul(o.a03).add(self.a01.mul(o.a02)).add(self.a02.mul(o.a01)).add(self.a03.mul(o.a00)),
            a04: self.a00.mul(o.a04).add(self.a01.mul(o.a03)).add(self.a02.mul(o.a02)).add(self.a03.mul(o.a01)).add(self.a04.mul(o.a00)),
            a10: self.a00.mul(o.a10).add(self.a10.mul(o.a00)),
            a11: self.a00.mul(o.a11).add(self.a01.mul(o.a10)).add(self.a10.mul(o.a01)).add(self.a11.mul(o.a00)),
            a12: self.a00.mul(o.a12).add(self.a01.mul(o.a11)).add(self.a02.mul(o.a10)).add(self.a10.mul(o.a02)).add(self.a11.mul(o.a01)).add(self.a12.mul(o.a00)),
            a13: self.a00.mul(o.a13).add(self.a01.mul(o.a12)).add(self.a02.mul(o.a11)).add(self.a03.mul(o.a10)).add(self.a10.mul(o.a03)).add(self.a11.mul(o.a02)).add(self.a12.mul(o.a01)).add(self.a13.mul(o.a00)),
            a14: self.a00.mul(o.a14).add(self.a01.mul(o.a13)).add(self.a02.mul(o.a12)).add(self.a03.mul(o.a11)).add(self.a04.mul(o.a10)).add(self.a10.mul(o.a04)).add(self.a11.mul(o.a03)).add(self.a12.mul(o.a02)).add(self.a13.mul(o.a01)).add(self.a14.mul(o.a00)),
            a20: self.a00.mul(o.a20).add(self.a10.mul(o.a10)).add(self.a20.mul(o.a00)),
            a21: self.a00.mul(o.a21).add(self.a01.mul(o.a20)).add(self.a10.mul(o.a11)).add(self.a11.mul(o.a10)).add(self.a20.mul(o.a01)).add(self.a21.mul(o.a00)),
            a22: self.a00.mul(o.a22).add(self.a01.mul(o.a21)).add(self.a02.mul(o.a20)).add(self.a10.mul(o.a12)).add(self.a11.mul(o.a11)).add(self.a12.mul(o.a10)).add(self.a20.mul(o.a02)).add(self.a21.mul(o.a01)).add(self.a22.mul(o.a00)),
            a23: self.a00.mul(o.a23).add(self.a01.mul(o.a22)).add(self.a02.mul(o.a21)).add(self.a03.mul(o.a20)).add(self.a10.mul(o.a13)).add(self.a11.mul(o.a12)).add(self.a12.mul(o.a11)).add(self.a13.mul(o.a10)).add(self.a20.mul(o.a03)).add(self.a21.mul(o.a02)).add(self.a22.mul(o.a01)).add(self.a23.mul(o.a00)),
            a24: self.a00.mul(o.a24).add(self.a01.mul(o.a23)).add(self.a02.mul(o.a22)).add(self.a03.mul(o.a21)).add(self.a04.mul(o.a20)).add(self.a10.mul(o.a14)).add(self.a11.mul(o.a13)).add(self.a12.mul(o.a12)).add(self.a13.mul(o.a11)).add(self.a14.mul(o.a10)).add(self.a20.mul(o.a04)).add(self.a21.mul(o.a03)).add(self.a22.mul(o.a02)).add(self.a23.mul(o.a01)).add(self.a24.mul(o.a00)),
    }
    }

    /// Reciprocal by the truncated geometric series.
    pub fn recip(self) -> (r: Td)
        ensures
            r@ == td_recip(self@),
    {
        proof {
            reveal(td_recip);
        }
        let i0 = Fx::one().div(self.a00);
        let z = self.sub(Td::constant(self.a00)).scale(i0);
        let z2 = z.mul(z);
        let z3 = z2.mul(z);
        let z4 = z3.mul(z);
        let z5 = z4.mul(z);
        let z6 = z5.mul(z);
        let s = Td::constant(Fx::one()).sub(z).add(z2).sub(z3).add(z4).sub(z5).add(z6);
        s.scale(i0)
    }

    /// Exponential: scalar exponential of the value channel times the
    /// truncated series on the nilpotent part.
    pub fn exp(self) -> (r: Td)
        ensures
            r@ == td_exp(self@),
    {
        proof {
            reveal(td_exp);
        }
        let e = crate::transcend::exp_fx(self.a00);
        let z = self.sub(Td::constant(self.a00));
        let z2 = z.mul(z);
        let z3 = z2.mul(z);
        let z4 = z3.mul(z);
        let z5 = z4.mul(z);
        let z6 = z5.mul(z);
        let s = Td::constant(Fx::one())
            .add(z)
            .add(z2.div_int(2))
            .add(z3.div_int(6))
            .add(z4.div_int(24))
            .add(z5.div_int(120))
            .add(z6.div_int(720));
        s.scale(e)
    }

    /// Logarithm: scalar logarithm of the value channel plus the truncated
    /// Mercator series on the relative deviation.
    pub fn ln(self) -> (r: Td)
        ensures
            r@ == td_ln(self@),
    {
        proof {
            reveal(td_ln);
        }
        let i0 = Fx::one().div(self.a00);
        let z = self.sub(Td::constant(self.a00)).scale(i0);
        let z2 = z.mul(z);
        let z3 = z2.mul(z);
        let z4 = z3.mul(z);
        let z5 = z4.mul(z);
        let z6 = z5.mul(z);
        let s = z
            .sub(z2.div_int(2))
            .add(z3.div_int(3))
            .sub(z4.div_int(4))
            .add(z5.div_int(5))
            .sub(z6.div_int(6));
        s.add(Td::constant(crate::transcend::ln_fx(self.a00)))
    }

    /// The value channel.
    pub fn value(self) -> (r: Fx)
        ensures
            r@ == self@.a00,
    {
        self.a00
    }

    /// First temperature derivative.
    pub fn d_t(self) -> (r: Fx)
        ensures
            r@ == self@.a10,
    {
        self.a10
    }

    /// First volume derivative.
    pub fn d_v(self) -> (r: Fx)
        ensures
            r@ == self@.a01,
    {
        self.a01
    }

    /// Second temperature derivative.
    pub fn d_tt(self) -> (r: Fx)
        ensures
            r@ == clip(self@.a20 * 2),
    {
        self.a20.mul_int(2)
    }

    /// Mixed temperature-volume derivative.
    pub fn d_tv(self) -> (r: Fx)
        ensures
            r@ == self@.a11,
    {
        self.a11
    }

    /// Second volume derivative.
    pub fn d_vv(self) -> (r: Fx)
        ensures
            r@ == clip(self@.a02 * 2),
    {
        self.a02.mul_int(2)
    }

    /// Mixed derivative: once in temperature, twice in volume.
    pub fn d_tvv(self) -> (r: Fx)
        ensures
            r@ == clip(self@.a12 * 2),
    {
        self.a12.mul_int(2)
    }

    /// Third volume derivative.
    pub fn d_vvv(self) -> (r: Fx)
        ensures
            r@ == clip(self@.a03 * 6),
    {
        self.a03.mul_int(6)
    }

    /// Mixed derivative: once in temperature, three times in volume.
    pub fn d_tvvv(self) -> (r: Fx)
        ensures
            r@ == clip(self@.a13 * 6),
    {
        self.a13.mul_int(6)
    }

    /// Fourth volume derivative.
    pub fn d_vvvv(self) -> (r: Fx)
        ensures
            r@ == clip(self@.a04 * 24),
    {
        self.a04.mul_int(24)
    }

}

/// The sum rule of the dual arithmetic: every derivative channel of a sum
/// is the sum of the channels, exactly.
pub proof fn lemma_sum_rule(x: TdS, y: TdS)
    ensures
        td_add(x, y).a01 == add_spec(x.a01, y.a01),
        td_add(x, y).a10 == add_spec(x.a10, y.a10),
{
}

/// The product rule of the dual arithmetic, exactly as calculus states it:
/// the first-derivative channels of a product are `x dy + dx y`.
pub proof fn lemma_product_rule(x: TdS, y: TdS)
    ensures
        td_mul(x, y).a01 == add_spec(mul_spec(x.a00, y.a01), mul_spec(x.a01, y.a00)),
        td_mul(x, y).a10 == add_spec(mul_spec(x.a00, y.a10), mul_spec(x.a10, y.a00)),
{
    reveal(td_mul);
}

/// A constant has no derivatives: every channel beyond the value is zero.
pub proof fn lemma_constant_rule(c: int)
    ensures
        td_const_spec(c).a01 == 0,
        td_const_spec(c).a10 == 0,
        td_const_spec(c).a02 == 0,
        td_const_spec(c).a20 == 0,
        td_const_spec(c).a11 == 0,
{
}

/// The chain rule of the exponential: the first volume-derivative channel
/// of `exp(x)` is `exp(x) dx`, exactly at the fixed-point level.
pub proof fn lemma_chain_rule_exp(x: TdS)
    requires
        crate::fixed::clip(x.a01) == x.a01,
    ensures
        td_exp(x).a01 == mul_spec(x.a01, exp_spec(x.a00)),
{
    reveal(td_exp);
    reveal(td_mul);
    let z = td_nil(x);
    assert(z.a00 == 0) by {
        assert(crate::fixed::sub_spec(x.a00, x.a00) == crate::fixed::clip(0));
    };
    assert(forall|y: int| mul_spec(0, y) == 0) by {
        assert forall|y: int| mul_spec(0, y) == 0 by {
            assert(0 * y == 0) by (nonlinear_arith);
        };
    };
    assert(forall|y: int| #[trigger] mul_spec(y, 0) == 0) by {
        assert forall|y: int| #[trigger] mul_spec(y, 0) == 0 by {
            assert(y * 0 == 0) by (nonlinear_arith);
        };
    };
}

} // verus!
