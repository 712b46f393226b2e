//! Gradient dual numbers: a value with one derivative channel per
//! component, for composition derivatives of the Helmholtz energy such as
//! chemical potentials and fugacity coefficients.

use vstd::prelude::*;

use crate::fixed::{add_spec, clip, div_spec, mul_spec, seq_m, Fx};
use crate::transcend::ln_spec;

verus! {

/// Ghost image of a gradient value.
pub struct GdS {
    /// The value channel.
    pub v: int,
    /// One derivative channel per component.
    pub g: Seq<int>,
}

/// A value with one derivative channel per component.
#[derive(Clone, Debug)]
pub struct Gd {
    /// The value channel.
    pub v: Fx,
    /// One derivative channel per component.
    pub g: Vec<Fx>,
}

impl View for Gd {
    type V = GdS;

    open spec fn view(&self) -> GdS {
        GdS { v: self.v@, g: seq_m(self.g@) }
    }
}

/// A constant: zero in every derivative channel.
pub open spec fn gd_const(c: int, len: nat) -> GdS {
    GdS { v: c, g: Seq::new(len, |i: int| 0) }
}

/// The mole-number variable of one component.
pub open spec fn gd_var(c: int, len: nat, idx: int) -> GdS {
    GdS {
        v: c,
        g: Seq::new(
            len,
            |i: int|
                if i == idx {
                    crate::fixed::SCALE as int
                } else {
                    0
                },
        ),
    }
}

/// Channel-wise saturating sum.
pub open spec fn gd_add(a: GdS, b: GdS) -> GdS {
    GdS { v: add_spec(a.v, b.v), g: Seq::new(a.g.len(), |i: int| add_spec(a.g[i], b.g[i])) }
}

/// Channel-wise saturating negation.
pub open spec fn gd_neg(a: GdS) -> GdS {
    GdS { v: clip(-a.v), g: Seq::new(a.g.len(), |i: int| clip(-a.g[i])) }
}

/// The product rule.
pub open spec fn gd_mul(a: GdS, b: GdS) -> GdS {
    GdS {
        v: mul_spec(a.v, b.v),
        g: Seq::new(
            a.g.len(),
            |i: int| add_spec(mul_spec(a.v, b.g[i]), mul_spec(a.g[i], b.v)),
        ),
    }
}

/// Product with a scalar.
pub open spec fn gd_scale(a: GdS, s: int) -> GdS {
    GdS { v: mul_spec(a.v, s), g: Seq::new(a.g.len(), |i: int| mul_spec(a.g[i], s)) }
}

/// The chain rule of the logarithm: the gradient is divided by the value.
pub open spec fn gd_ln(a: GdS) -> GdS {
    GdS { v: ln_spec(a.v), g: Seq::new(a.g.len(), |i: int| div_spec(a.g[i], a.v)) }
}

impl Gd {
    /// A constant over a component count.
    pub fn constant(c: Fx, len: usize) -> (r: Gd)
        ensures
            r@ == gd_const(c@, len as nat),
            r.g@.len() == len,
    {
        let mut g: Vec<Fx> = Vec::new();
        let mut i: usize = 0;
        while i < len
            invariant
                0 <= i <= len,
                g@.len() == i,
                forall|p: int| 0 <= p < i ==> (#[trigger] g@[p])@ == 0,
            decreases len - i,
        {
            g.push(Fx::zero());
            i = i + 1;
        }
        let r = Gd { v: c, g };
        proof {
            assert(r@.g =~= gd_const(c@, len as nat).g);
        }
        r
    }

    /// The mole-number variable of one component.
    pub fn variable(c: Fx, len: usize, idx: usize) -> (r: Gd)
        ensures
            r@ == gd_var(c@, len as nat, idx as int),
            r.g@.len() == len,
    {
        let mut g: Vec<Fx> = Vec::new();
        let mut i: usize = 0;
        while i < len
            invariant
                0 <= i <= len,
                g@.len() == i,
                forall|p: int|
                    0 <= p < i ==> (#[trigger] g@[p])@ == (if p == idx as int {
                        crate::fixed::SCALE as int
                    } else {
                        0
                    }),
            decreases len - i,
        {
            if i == idx {
                g.push(Fx::one());
            } else {
                g.push(Fx::zero());
            }
            i = i + 1;
        }
        let r = Gd { v: c, g };
        proof {
            assert(r@.g =~= gd_var(c@, len as nat, idx as int).g);
        }
        r
    }

    /// Channel-wise saturating sum.
    pub fn add(&self, o: &Gd) -> (r: Gd)
        requires
            self.g@.len() == o.g@.len(),
        ensures
            r@ == gd_add(self@, o@),
            r.g@.len() == self.g@.len(),
    {
        let mut g: Vec<Fx> = Vec::new();
        let mut i: usize = 0;
        while i < self.g.len()
            invariant
                0 <= i <= self.g@.len(),
                self.g@.len() == o.g@.len(),
                g@.len() == i,
                forall|p: int|
                    0 <= p < i ==> (#[trigger] g@[p])@ == add_spec(self.g@[p]@, o.g@[p]@),
            decreases self.g@.len() - i,
        {
            g.push(self.g[i].add(o.g[i]));
            i = i + 1;
        }
        let r = Gd { v: self.v.add(o.v), g };
        proof {
            assert(r@.g =~= gd_add(self@, o@).g);
        }
        r
    }

    /// Channel-wise saturating negation.
    pub fn neg(&self) -> (r: Gd)
        ensures
            r@ == gd_neg(self@),
            r.g@.len() == self.g@.len(),
    {
        let mut g: Vec<Fx> = Vec::new();
        let mut i: usize = 0;
        while i < self.g.len()
            invariant
                0 <= i <= self.g@.len(),
                g@.len() == i,
                forall|p: int| 0 <= p < i ==> (#[trigger] g@[p])@ == clip(-self.g@[p]@),
            decreases self.g@.len() - i,
        {
            g.push(self.g[i].neg());
            i = i + 1;
        }
        let r = Gd { v: self.v.neg(), g };
        proof {
            assert(r@.g =~= gd_neg(self@).g);
        }
        r
    }

    /// The product rule.
    pub fn mul(&self, o: &Gd) -> (r: Gd)
        requires
            self.g@.len() == o.g@.len(),
        ensures
            r@ == gd_mul(self@, o@),
            r.g@.len() == self.g@.len(),
    {
        let mut g: Vec<Fx> = Vec::new();
        let mut i: usize = 0;
        while i < self.g.len()
            invariant
                0 <= i <= self.g@.len(),
                self.g@.len() == o.g@.len(),
                g@.len() == i,
                forall|p: int|
                    0 <= p < i ==> (#[trigger] g@[p])@ == add_spec(
                        mul_spec(self.v@, o.g@[p]@),
                        mul_spec(self.g@[p]@, o.v@),
                    ),
            decreases self.g@.len() - i,
        {
            g.push(self.v.mul(o.g[i]).add(self.g[i].mul(o.v)));
            i = i + 1;
        }
        let r = Gd { v: self.v.mul(o.v), g };
        proof {
            assert(r@.g =~= gd_mul(self@, o@).g);
        }
        r
    }

    /// Product with a scalar.
    pub fn scale(&self, s: Fx) -> (r: Gd)
        ensures
            r@ == gd_scale(self@, s@),
            r.g@.len() == self.g@.len(),
    {
        let mut g: Vec<Fx> = Vec::new();
        let mut i: usize = 0;
        while i < self.g.len()
            invariant
                0 <= i <= self.g@.len(),
                g@.len() == i,
                forall|p: int| 0 <= p < i ==> (#[trigger] g@[p])@ == mul_spec(self.g@[p]@, s@),
            decreases self.g@.len() - i,
        {
            g.push(self.g[i].mul(s));
            i = i + 1;
        }
        let r = Gd { v: self.v.mul(s), g };
        proof {
            assert(r@.g =~= gd_scale(self@, s@).g);
        }
        r
    }

    /// The chain rule of the logarithm.
    pub fn ln(&self) -> (r: Gd)
        ensures
            r@ == gd_ln(self@),
            r.g@.len() == self.g@.len(),
    {
        let mut g: Vec<Fx> = Vec::new();
        let mut i: usize = 0;
        while i < self.g.len()
            invariant
                0 <= i <= self.g@.len(),
                g@.len() == i,
                forall|p: int| 0 <= p < i ==> (#[trigger] g@[p])@ == div_spec(self.g@[p]@, self.v@),
            decreases self.g@.len() - i,
        {
            g.push(self.g[i].div(self.v));
            i = i + 1;
        }
        let r = Gd { v: crate::transcend::ln_fx(self.v), g };
        proof {
            assert(r@.g =~= gd_ln(self@).g);
        }
        r
    }
}

} // verus!
