//! Residual Helmholtz-energy models.
//!
//! A model owns an ordered list of named contributions, each evaluable at
//! the engine's dual-number precision; the total residual reduced Helmholtz
//! energy is their sum in declaration order. The ideal-gas reference is a
//! separate, additive contribution. Everything is expressed over the
//! fixed-point scalar, so every evaluation has an exact spec-level mirror.

use vstd::prelude::*;

use crate::error::EosError;
use crate::fixed::{add_spec, clip, mul_spec, seq_m, sqrt_total, sub_spec, Fx, SCALE};
use crate::taylor::{
    td_add, td_const_spec, td_ln, td_mul, td_neg, td_recip, td_scale, td_sub, Td, TdS,
};

verus! {

/// Saturating sum of the first `k` mantissas.
pub open spec fn sum_pre(s: Seq<int>, k: nat) -> int
    decreases k,
{
    if k == 0 {
        0
    } else {
        add_spec(sum_pre(s, (k - 1) as nat), s[k - 1])
    }
}

/// Saturating sum of a mantissa sequence.
pub open spec fn sum_seq(s: Seq<int>) -> int {
    sum_pre(s, s.len())
}

/// Saturating dot product of the first `k` entries.
pub open spec fn dot_pre(x: Seq<int>, y: Seq<int>, k: nat) -> int
    decreases k,
{
    if k == 0 {
        0
    } else {
        add_spec(dot_pre(x, y, (k - 1) as nat), mul_spec(x[k - 1], y[k - 1]))
    }
}

/// Saturating dot product of two mantissa sequences.
pub open spec fn dot_seq(x: Seq<int>, y: Seq<int>) -> int {
    dot_pre(x, y, x.len())
}

/// Saturating quadratic form over the first `k` rows: the double sum of
/// `n_i n_j a_ij`.
pub open spec fn quad_pre(a: Seq<Seq<int>>, n: Seq<int>, k: nat) -> int
    decreases k,
{
    if k == 0 {
        0
    } else {
        add_spec(
            quad_pre(a, n, (k - 1) as nat),
            mul_spec(n[k - 1], dot_seq(n, a[k - 1])),
        )
    }
}

/// Saturating quadratic form of a composition over a symmetric matrix.
pub open spec fn quad_seq(a: Seq<Seq<int>>, n: Seq<int>) -> int {
    quad_pre(a, n, a.len())
}

/// The sum of a sequence of scalars.
pub fn sum_fx(s: &Vec<Fx>) -> (r: Fx)
    ensures
        r@ == sum_seq(seq_m(s@)),
{
    let mut acc = Fx::zero();
    let mut i: usize = 0;
    while i < s.len()
        invariant
            0 <= i <= s.len(),
            acc@ == sum_pre(seq_m(s@), i as nat),
        decreases s.len() - i,
    {
        acc = acc.add(s[i]);
        i = i + 1;
    }
    acc
}

/// The dot product of two scalar vectors.
pub fn dot_fx(x: &Vec<Fx>, y: &Vec<Fx>) -> (r: Fx)
    requires
        x@.len() == y@.len(),
    ensures
        r@ == dot_seq(seq_m(x@), seq_m(y@)),
{
    let mut acc = Fx::zero();
    let mut i: usize = 0;
    while i < x.len()
        invariant
            0 <= i <= x.len(),
            x@.len() == y@.len(),
            acc@ == dot_pre(seq_m(x@), seq_m(y@), i as nat),
        decreases x.len() - i,
    {
        acc = acc.add(x[i].mul(y[i]));
        i = i + 1;
    }
    acc
}

/// One term of a residual model, with its parameters.
#[derive(Clone, Debug)]
pub enum Contribution {
    /// Excluded-volume repulsion with a covolume per component:
    /// `-n ln(1 - (sum n_i b_i) / V)`.
    HardSphere { b: Vec<Fx> },
    /// Attractive mean-field term with a precomputed symmetric energy
    /// matrix: `-(sum_ij n_i n_j a_ij) / (T V)`.
    MeanField { a_ij: Vec<Vec<Fx>> },
}

/// The display name of a contribution.
pub open spec fn name_spec(c: Contribution) -> Seq<char> {
    match c {
        Contribution::HardSphere { .. } => "Hard Sphere"@,
        Contribution::MeanField { .. } => "Mean Field"@,
    }
}

/// Well-formedness of one contribution against a component count.
pub open spec fn contribution_wf(c: Contribution, nc: nat) -> bool {
    match c {
        Contribution::HardSphere { b } => b@.len() == nc,
        Contribution::MeanField { a_ij } => {
            &&& a_ij@.len() == nc
            &&& forall|i: int| 0 <= i < nc ==> (#[trigger] a_ij@[i])@.len() == nc
        },
    }
}

/// The repulsive contribution at dual precision.
pub open spec fn hs_td(b: Seq<int>, v: TdS, n: Seq<int>) -> TdS {
    let bsum = dot_seq(n, b);
    let ntot = sum_seq(n);
    td_neg(
        td_scale(
            td_ln(td_sub(td_const_spec(SCALE as int), td_scale(td_recip(v), bsum))),
            ntot,
        ),
    )
}

/// The mean-field contribution at dual precision.
pub open spec fn mf_td(a: Seq<Seq<int>>, t: TdS, v: TdS, n: Seq<int>) -> TdS {
    td_neg(td_scale(td_recip(td_mul(t, v)), quad_seq(a, n)))
}

/// One contribution's reduced Helmholtz energy at dual precision.
pub open spec fn contrib_td(c: Contribution, t: TdS, v: TdS, n: Seq<int>) -> TdS {
    match c {
        Contribution::HardSphere { b } => hs_td(seq_m(b@), v, n),
        Contribution::MeanField { a_ij } => {
            mf_td(a_ij@.map_values(|row: Vec<Fx>| seq_m(row@)), t, v, n)
        },
    }
}

/// The sum of the first `k` contributions, in declaration order.
pub open spec fn residual_td(cs: Seq<Contribution>, t: TdS, v: TdS, n: Seq<int>, k: nat) -> TdS
    decreases k,
{
    if k == 0 {
        td_const_spec(0)
    } else {
        td_add(residual_td(cs, t, v, n, (k - 1) as nat), contrib_td(cs[k - 1], t, v, n))
    }
}

impl Contribution {
    /// Builds the mean-field contribution from pure-component energies and
    /// a binary interaction correction: `a_ij = sqrt(a_i a_j) (1 - k_ij)`.
    pub fn mean_field(a: &Vec<Fx>, k_ij: &Vec<Vec<Fx>>) -> (r: Contribution)
        requires
            k_ij@.len() == a@.len(),
            forall|i: int| 0 <= i < a@.len() ==> (#[trigger] k_ij@[i])@.len() == a@.len(),
        ensures
            r is MeanField,
            contribution_wf(r, a@.len()),
            forall|i: int, j: int|
                0 <= i < a@.len() && 0 <= j < a@.len() ==> (#[trigger] (r->a_ij@[i])@[j])@ == mul_spec(
                    sqrt_total(mul_spec(a@[i]@, a@[j]@)),
                    sub_spec(SCALE as int, k_ij@[i]@[j]@),
                ),
    {
        let nc = a.len();
        let mut rows: Vec<Vec<Fx>> = Vec::new();
        let mut i: usize = 0;
        while i < nc
            invariant
                0 <= i <= nc,
                nc == a@.len(),
                k_ij@.len() == nc,
                forall|p: int| 0 <= p < nc ==> (#[trigger] k_ij@[p])@.len() == nc,
                rows@.len() == i,
                forall|p: int| 0 <= p < i ==> (#[trigger] rows@[p])@.len() == nc,
                forall|p: int, q: int|
                    0 <= p < i && 0 <= q < nc ==> (#[trigger] (rows@[p])@[q])@ == mul_spec(
                        sqrt_total(mul_spec(a@[p]@, a@[q]@)),
                        sub_spec(SCALE as int, k_ij@[p]@[q]@),
                    ),
            decreases nc - i,
        {
            let mut row: Vec<Fx> = Vec::new();
            let mut j: usize = 0;
            while j < nc
                invariant
                    0 <= j <= nc,
                    0 <= i < nc,
                    nc == a@.len(),
                    k_ij@.len() == nc,
                    forall|p: int| 0 <= p < nc ==> (#[trigger] k_ij@[p])@.len() == nc,
                    row@.len() == j,
                    forall|q: int|
                        0 <= q < j ==> (#[trigger] row@[q])@ == mul_spec(
                            sqrt_total(mul_spec(a@[i as int]@, a@[q]@)),
                            sub_spec(SCALE as int, k_ij@[i as int]@[q]@),
                        ),
                decreases nc - j,
            {
                let e = a[i].mul(a[j]).sqrt().mul(Fx::one().sub(k_ij[i][j]));
                row.push(e);
                j = j + 1;
            }
            rows.push(row);
            i = i + 1;
        }
        Contribution::MeanField { a_ij: rows }
    }

    /// The contribution's display name.
    pub fn name(&self) -> (r: String)
        ensures
            r@ == name_spec(*self),
            r@.len() > 0,
    {
        match self {
            Contribution::HardSphere { .. } => {
                proof {
                    reveal_strlit("Hard Sphere");
                }
                String::from_str("Hard Sphere")
            },
            Contribution::MeanField { .. } => {
                proof {
                    reveal_strlit("Mean Field");
                }
                String::from_str("Mean Field")
            },
        }
    }

    /// The contribution's reduced Helmholtz energy at dual precision.
    pub fn helmholtz_energy(&self, state: &StateHD) -> (r: Td)
        requires
            contribution_wf(*self, state.moles@.len()),
        ensures
            r@ == contrib_td(*self, state.temperature@, state.volume@, seq_m(state.moles@)),
    {
        match self {
            Contribution::HardSphere { b } => {
                let bsum = dot_fx(&state.moles, b);
                let ntot = sum_fx(&state.moles);
                let inside = Td::constant(Fx::one()).sub(state.volume.recip().scale(bsum));
                inside.ln().scale(ntot).neg()
            },
            Contribution::MeanField { a_ij } => {
                let mut acc = Fx::zero();
                let mut i: usize = 0;
                proof {
                    assert(a_ij@.map_values(|row: Vec<Fx>| seq_m(row@)).len() == a_ij@.len());
                }
                while i < a_ij.len()
                    invariant
                        0 <= i <= a_ij@.len(),
                        a_ij@.len() == state.moles@.len(),
                        forall|p: int|
                            0 <= p < a_ij@.len() ==> (#[trigger] a_ij@[p])@.len()
                                == state.moles@.len(),
                        acc@ == quad_pre(
                            a_ij@.map_values(|row: Vec<Fx>| seq_m(row@)),
                            seq_m(state.moles@),
                            i as nat,
                        ),
                    decreases a_ij@.len() - i,
                {
                    let rowdot = dot_fx(&state.moles, &a_ij[i]);
                    proof {
                        assert(a_ij@.map_values(|row: Vec<Fx>| seq_m(row@))[i as int] == seq_m(
                            a_ij@[i as int]@,
                        ));
                    }
                    acc = acc.add(state.moles[i].mul(rowdot));
                    i = i + 1;
                }
                state.temperature.mul(state.volume).recip().scale(acc).neg()
            },
        }
    }
}

/// A state descriptor at dual precision: temperature and volume carry their
/// derivative channels, the mole numbers are plain scalars.
#[derive(Clone, Debug)]
pub struct StateHD {
    /// Temperature, usually seeded as the temperature variable.
    pub temperature: Td,
    /// Volume, usually seeded as the volume variable.
    pub volume: Td,
    /// Mole numbers in reduced units.
    pub moles: Vec<Fx>,
}

impl StateHD {
    /// A dual state seeded for derivatives in temperature and volume.
    pub fn new(temperature: Fx, volume: Fx, moles: Vec<Fx>) -> (r: StateHD)
        ensures
            r.temperature@ == (TdS { a10: SCALE as int, ..td_const_spec(temperature@) }),
            r.volume@ == (TdS { a01: SCALE as int, ..td_const_spec(volume@) }),
            r.moles@ == moles@,
    {
        StateHD { temperature: Td::var_t(temperature), volume: Td::var_v(volume), moles }
    }
}

/// The ideal-gas contribution at dual precision, for the first `k`
/// components: each adds `n_i (ln(n_i / V) - 1)`, with a unit thermal
/// wavelength as the reference.
pub open spec fn ig_td(v: TdS, n: Seq<int>, k: nat) -> TdS
    decreases k,
{
    if k == 0 {
        td_const_spec(0)
    } else {
        td_add(
            ig_td(v, n, (k - 1) as nat),
            td_scale(
                td_sub(
                    td_ln(td_scale(td_recip(v), n[k - 1])),
                    td_const_spec(SCALE as int),
                ),
                n[k - 1],
            ),
        )
    }
}

/// The ideal-gas reference model. The only supplied reference uses a unit
/// thermal wavelength, making the ideal reduced Helmholtz energy
/// `sum n_i (ln(n_i / V) - 1)`.
#[derive(Clone, Copy, PartialEq, Eq, Structural, Debug)]
pub enum IdealGasModel {
    /// Unit thermal wavelength.
    UnitWavelength,
}

impl IdealGasModel {
    /// The ideal-gas reduced Helmholtz energy at dual precision.
    pub fn helmholtz_energy(&self, state: &StateHD) -> (r: Td)
        ensures
            r@ == ig_td(state.volume@, seq_m(state.moles@), state.moles@.len()),
    {
        let mut acc = Td::constant(Fx::zero());
        let mut i: usize = 0;
        while i < state.moles.len()
            invariant
                0 <= i <= state.moles@.len(),
                acc@ == ig_td(state.volume@, seq_m(state.moles@), i as nat),
            decreases state.moles@.len() - i,
        {
            let ni = state.moles[i];
            let term = state.volume.recip().scale(ni).ln().sub(Td::constant(Fx::one())).scale(ni);
            acc = acc.add(term);
            i = i + 1;
        }
        acc
    }
}

/// Which contributions a property evaluation includes.
#[derive(Clone, Copy, PartialEq, Eq, Structural, Debug)]
pub enum Contributions {
    /// Ideal gas plus residual.
    Total,
    /// Residual contributions only.
    Residual,
    /// Ideal-gas contribution only.
    IdealGas,
}

/// A residual Helmholtz energy model.
pub trait Residual: Sized {
    /// The number of components.
    spec fn spec_components(&self) -> nat;

    /// The model's maximum-density estimate as a function of composition.
    spec fn spec_max_density(&self, n: Seq<int>) -> int;

    /// The residual reduced Helmholtz energy at dual precision.
    spec fn spec_residual_td(&self, t: TdS, v: TdS, n: Seq<int>) -> TdS;

    /// Whether a composition of the given length can be evaluated.
    spec fn spec_compatible(&self, n_len: nat) -> bool;

    /// The molar weights, when the model carries them.
    spec fn spec_molar_weight(&self) -> Option<Seq<int>>;

    /// Return the number of components.
    fn components(&self) -> (r: usize)
        ensures
            r as nat == self.spec_components(),
    ;

    /// What the projection onto a component sublist must look like.
    spec fn spec_subset_ok(&self, component_list: Seq<usize>, r: Self) -> bool;

    /// Project the model onto a sublist of components, preserving binary
    /// interaction data.
    fn subset(&self, component_list: &[usize]) -> (r: Self)
        requires
            forall|k: int|
                0 <= k < component_list@.len() ==> (#[trigger] component_list@[k])
                    < self.spec_components(),
        ensures
            r.spec_components() == component_list@.len(),
            self.spec_subset_ok(component_list@, r),
    ;

    /// Return an estimate for the maximum density, used to seed liquid-like
    /// iterations; not a hard physical bound.
    fn compute_max_density(&self, moles: &Vec<Fx>) -> (r: Fx)
        ensures
            r@ == self.spec_max_density(seq_m(moles@)),
    ;

    /// Evaluate the residual reduced Helmholtz energy.
    fn evaluate_residual(&self, state: &StateHD) -> (r: Td)
        requires
            self.spec_compatible(state.moles@.len()),
        ensures
            r@ == self.spec_residual_td(
                state.temperature@,
                state.volume@,
                seq_m(state.moles@),
            ),
    ;

    /// Molar weight of all components; a typed error, never an abort,
    /// when the model has none.
    fn molar_weight(&self) -> (r: Result<Vec<Fx>, EosError>)
        ensures
            match r {
                Ok(w) => self.spec_molar_weight() == Some(seq_m(w@)),
                Err(e) => self.spec_molar_weight() is None && e == EosError::MissingMolarWeight,
            },
    ;

    /// Check an optional mole-number vector against the component count:
    /// absent moles are accepted exactly for a pure component, where they
    /// default to the unit reference amount.
    fn validate_moles(&self, moles: Option<&Vec<Fx>>) -> (r: Result<Vec<Fx>, EosError>)
        ensures
            match r {
                Ok(v) => {
                    &&& match moles {
                        Some(m) => self.spec_components() == m@.len() && v@ == m@,
                        None => self.spec_components() == 1 && seq_m(v@) == seq![SCALE as int],
                    }
                },
                Err(e) => {
                    &&& match moles {
                        Some(m) => {
                            self.spec_components() != m@.len() && e
                                == EosError::IncompatibleComponents(
                                self.spec_components() as usize,
                                m@.len() as usize,
                            )
                        },
                        None => {
                            self.spec_components() != 1 && e == EosError::IncompatibleComponents(
                                self.spec_components() as usize,
                                1,
                            )
                        },
                    }
                },
            },
    ;

    /// Calculate the maximum density for a validated composition: the
    /// estimate exactly when the composition validates, the same
    /// component-count error as the validation otherwise.
    fn max_density(&self, moles: Option<&Vec<Fx>>) -> (r: Result<Fx, EosError>)
        ensures
            match r {
                Ok(d) => match moles {
                    Some(m) => self.spec_components() == m@.len() && d@ == self.spec_max_density(
                        seq_m(m@),
                    ),
                    None => self.spec_components() == 1 && d@ == self.spec_max_density(
                        seq![SCALE as int],
                    ),
                },
                Err(e) => match moles {
                    Some(m) => {
                        self.spec_components() != m@.len() && e
                            == EosError::IncompatibleComponents(
                            self.spec_components() as usize,
                            m@.len() as usize,
                        )
                    },
                    None => {
                        self.spec_components() != 1 && e == EosError::IncompatibleComponents(
                            self.spec_components() as usize,
                            1,
                        )
                    },
                },
            },
    ;
}

/// Maximum-density estimate of a contribution list, scanning from the
/// front: nine tenths of the close-packing density of the first repulsive
/// term, or the unit density for a model without one.
pub open spec fn max_density_from(cs: Seq<Contribution>, n: Seq<int>, i: nat) -> int
    decreases cs.len() - i,
{
    if i >= cs.len() {
        SCALE as int
    } else if cs[i as int] is HardSphere {
        if (cs[i as int]->b)@.len() == n.len() {
            crate::fixed::tdiv(
                crate::fixed::clip(
                    crate::fixed::div_spec(sum_seq(n), dot_seq(n, seq_m(cs[i as int]->b@))) * 9,
                ),
                10,
            )
        } else {
            SCALE as int
        }
    } else {
        max_density_from(cs, n, i + 1)
    }
}

/// Maximum-density estimate of a contribution list.
pub open spec fn max_density_spec(cs: Seq<Contribution>, n: Seq<int>) -> int {
    max_density_from(cs, n, 0)
}

/// The running sum of a sequence of dual values.
pub open spec fn td_sum(s: Seq<TdS>, k: nat) -> TdS
    decreases k,
{
    if k == 0 {
        td_const_spec(0)
    } else {
        td_add(td_sum(s, (k - 1) as nat), s[k - 1])
    }
}

/// A running sum over a prefix ignores elements pushed behind it.
pub proof fn lemma_td_sum_push(s: Seq<TdS>, x: TdS, k: nat)
    requires
        k <= s.len(),
    ensures
        td_sum(s.push(x), k) == td_sum(s, k),
    decreases k,
{
    if k > 0 {
        lemma_td_sum_push(s, x, (k - 1) as nat);
        assert(s.push(x)[k - 1] == s[k - 1]);
    }
}

/// Reference values and residual-entropy correlations for entropy scaling
/// of transport properties; models that carry the correlation
/// coefficients implement it.
pub trait EntropyScaling {
    /// The viscosity reference of a state.
    fn viscosity_reference(&self, temperature: Fx, volume: Fx, moles: &Vec<Fx>) -> Result<
        Fx,
        EosError,
    >;

    /// The viscosity correlation at a residual entropy.
    fn viscosity_correlation(&self, s_res: Fx, x: &Vec<Fx>) -> Result<Fx, EosError>;

    /// The diffusion reference of a state.
    fn diffusion_reference(&self, temperature: Fx, volume: Fx, moles: &Vec<Fx>) -> Result<
        Fx,
        EosError,
    >;

    /// The diffusion correlation at a residual entropy.
    fn diffusion_correlation(&self, s_res: Fx, x: &Vec<Fx>) -> Result<Fx, EosError>;

    /// The thermal-conductivity reference of a state.
    fn thermal_conductivity_reference(&self, temperature: Fx, volume: Fx, moles: &Vec<Fx>)
        -> Result<Fx, EosError>;

    /// The thermal-conductivity correlation at a residual entropy.
    fn thermal_conductivity_correlation(&self, s_res: Fx, x: &Vec<Fx>) -> Result<Fx, EosError>;
}

/// A residual model: an ordered contribution list with optional molar
/// weights.
#[derive(Clone, Debug)]
pub struct ResidualModel {
    /// The declared component count.
    pub n_components: usize,
    /// The ordered contribution list.
    pub contributions: Vec<Contribution>,
    /// Molar weights, absent for models that cannot provide them.
    pub molar_weight: Option<Vec<Fx>>,
}

impl ResidualModel {
    /// Well-formedness: every contribution and the molar weights match the
    /// component count.
    pub open spec fn wf(self) -> bool {
        &&& forall|k: int|
            0 <= k < self.contributions@.len() ==> contribution_wf(
                #[trigger] self.contributions@[k],
                self.n_components as nat,
            )
        &&& match self.molar_weight {
            Some(w) => w@.len() == self.n_components as nat,
            None => true,
        }
    }
}

/// What projecting one contribution onto a component sublist must yield:
/// entries are taken at the listed indices, with a zero standing in for an
/// index beyond a malformed vector.
pub open spec fn subset_contribution_ok(
    c: Contribution,
    list: Seq<usize>,
    rc: Contribution,
) -> bool {
    match c {
        Contribution::HardSphere { b } => match rc {
            Contribution::HardSphere { b: rb } => {
                &&& rb@.len() == list.len()
                &&& forall|i: int|
                    0 <= i < list.len() ==> (#[trigger] rb@[i]) == (if (list[i] as int)
                        < b@.len() {
                        b@[list[i] as int]
                    } else {
                        Fx { m: 0 }
                    })
            },
            Contribution::MeanField { .. } => false,
        },
        Contribution::MeanField { a_ij } => match rc {
            Contribution::MeanField { a_ij: ra } => {
                &&& ra@.len() == list.len()
                &&& forall|i: int| 0 <= i < list.len() ==> (#[trigger] ra@[i])@.len() == list.len()
                &&& forall|i: int, j: int|
                    0 <= i < list.len() && 0 <= j < list.len() ==> (#[trigger] ra@[i]@[j]) == (
                    if (list[i] as int) < a_ij@.len() && (list[j] as int) < a_ij@[list[i] as int]@.len() {
                        a_ij@[list[i] as int]@[list[j] as int]
                    } else {
                        Fx { m: 0 }
                    })
            },
            Contribution::HardSphere { .. } => false,
        },
    }
}

impl Residual for ResidualModel {
    open spec fn spec_components(&self) -> nat {
        self.n_components as nat
    }

    open spec fn spec_max_density(&self, n: Seq<int>) -> int {
        max_density_spec(self.contributions@, n)
    }

    open spec fn spec_residual_td(&self, t: TdS, v: TdS, n: Seq<int>) -> TdS {
        residual_td(self.contributions@, t, v, n, self.contributions@.len())
    }

    open spec fn spec_molar_weight(&self) -> Option<Seq<int>> {
        match self.molar_weight {
            Some(w) => Some(seq_m(w@)),
            None => None,
        }
    }

    open spec fn spec_compatible(&self, n_len: nat) -> bool {
        self.wf() && n_len == self.n_components as nat
    }

    open spec fn spec_subset_ok(&self, component_list: Seq<usize>, r: Self) -> bool {
        &&& r.n_components == component_list.len()
        &&& r.contributions@.len() == self.contributions@.len()
        &&& forall|k: int|
            0 <= k < self.contributions@.len() ==> subset_contribution_ok(
                #[trigger] self.contributions@[k],
                component_list,
                r.contributions@[k],
            )
        &&& match (self.molar_weight, r.molar_weight) {
            (Some(w), Some(rw)) => {
                &&& rw@.len() == component_list.len()
                &&& forall|i: int|
                    0 <= i < component_list.len() ==> (#[trigger] rw@[i]) == (if (
                    component_list[i] as int) < w@.len() {
                        w@[component_list[i] as int]
                    } else {
                        Fx { m: 0 }
                    })
            },
            (None, None) => true,
            _ => false,
        }
    }

    fn components(&self) -> (r: usize) {
        self.n_components
    }

    fn subset(&self, component_list: &[usize]) -> (r: ResidualModel) {
        let nc = component_list.len();
        let mut contributions: Vec<Contribution> = Vec::new();
        let mut k: usize = 0;
        while k < self.contributions.len()
            invariant
                forall|q: int|
                    0 <= q < component_list@.len() ==> (#[trigger] component_list@[q])
                        < self.spec_components(),
                nc == component_list@.len(),
                0 <= k <= self.contributions@.len(),
                contributions@.len() == k,
                forall|p: int|
                    0 <= p < k ==> subset_contribution_ok(
                        #[trigger] self.contributions@[p],
                        component_list@,
                        contributions@[p],
                    ),
            decreases self.contributions@.len() - k,
        {
            match &self.contributions[k] {
                Contribution::HardSphere { b } => {
                    let mut nb: Vec<Fx> = Vec::new();
                    let mut i: usize = 0;
                    while i < nc
                        invariant
                            forall|q: int|
                                0 <= q < component_list@.len() ==> (
                                #[trigger] component_list@[q]) < self.spec_components(),
                            nc == component_list@.len(),
                            0 <= i <= nc,
                            nb@.len() == i,
                            forall|p: int|
                                0 <= p < i ==> (#[trigger] nb@[p]) == (if (
                                component_list@[p] as int) < b@.len() {
                                    b@[component_list@[p] as int]
                                } else {
                                    Fx { m: 0 }
                                }),
                        decreases nc - i,
                    {
                        let idx = component_list[i];
                        if idx < b.len() {
                            nb.push(b[idx]);
                        } else {
                            nb.push(Fx::zero());
                        }
                        i = i + 1;
                    }
                    contributions.push(Contribution::HardSphere { b: nb });
                },
                Contribution::MeanField { a_ij } => {
                    let mut rows: Vec<Vec<Fx>> = Vec::new();
                    let mut i: usize = 0;
                    while i < nc
                        invariant
                            forall|q: int|
                                0 <= q < component_list@.len() ==> (
                                #[trigger] component_list@[q]) < self.spec_components(),
                            nc == component_list@.len(),
                            0 <= i <= nc,
                            rows@.len() == i,
                            forall|p: int| 0 <= p < i ==> (#[trigger] rows@[p])@.len() == nc,
                            forall|p: int, q: int|
                                0 <= p < i && 0 <= q < nc ==> (#[trigger] rows@[p]@[q]) == (
                                if (component_list@[p] as int) < a_ij@.len() && (
                                component_list@[q] as int) < a_ij@[component_list@[p] as int]@.len() {
                                    a_ij@[component_list@[p] as int]@[component_list@[q] as int]
                                } else {
                                    Fx { m: 0 }
                                }),
                        decreases nc - i,
                    {
                        let mut row: Vec<Fx> = Vec::new();
                        let mut j: usize = 0;
                        while j < nc
                            invariant
                                forall|q: int|
                                    0 <= q < component_list@.len() ==> (
                                    #[trigger] component_list@[q]) < self.spec_components(),
                                nc == component_list@.len(),
                                0 <= i < nc,
                                0 <= j <= nc,
                                row@.len() == j,
                                forall|q: int|
                                    0 <= q < j ==> (#[trigger] row@[q]) == (if (
                                    component_list@[i as int] as int) < a_ij@.len() && (
                                    component_list@[q] as int)
                                        < a_ij@[component_list@[i as int] as int]@.len() {
                                        a_ij@[component_list@[i as int] as int]@[component_list@[q] as int]
                                    } else {
                                        Fx { m: 0 }
                                    }),
                            decreases nc - j,
                        {
                            let ri = component_list[i];
                            let cj = component_list[j];
                            if ri < a_ij.len() && cj < a_ij[ri].len() {
                                row.push(a_ij[ri][cj]);
                            } else {
                                row.push(Fx::zero());
                            }
                            j = j + 1;
                        }
                        rows.push(row);
                        i = i + 1;
                    }
                    contributions.push(Contribution::MeanField { a_ij: rows });
                },
            }
            k = k + 1;
        }
        let molar_weight: Option<Vec<Fx>> = match &self.molar_weight {
            Some(w) => {
                let mut nw: Vec<Fx> = Vec::new();
                let mut i: usize = 0;
                while i < nc
                    invariant
                        forall|q: int|
                            0 <= q < component_list@.len() ==> (#[trigger] component_list@[q])
                                < self.spec_components(),
                        nc == component_list@.len(),
                        0 <= i <= nc,
                        nw@.len() == i,
                        forall|p: int|
                            0 <= p < i ==> (#[trigger] nw@[p]) == (if (
                            component_list@[p] as int) < w@.len() {
                                w@[component_list@[p] as int]
                            } else {
                                Fx { m: 0 }
                            }),
                    decreases nc - i,
                {
                    let idx = component_list[i];
                    if idx < w.len() {
                        nw.push(w[idx]);
                    } else {
                        nw.push(Fx::zero());
                    }
                    i = i + 1;
                }
                Some(nw)
            },
            None => None,
        };
        ResidualModel { n_components: nc, contributions, molar_weight }
    }

    fn compute_max_density(&self, moles: &Vec<Fx>) -> (r: Fx) {
        let mut i: usize = 0;
        loop
            invariant
                0 <= i <= self.contributions@.len(),
                max_density_from(self.contributions@, seq_m(moles@), 0) == max_density_from(
                    self.contributions@,
                    seq_m(moles@),
                    i as nat,
                ),
            decreases self.contributions@.len() - i,
        {
            if i >= self.contributions.len() {
                return Fx::one();
            }
            match &self.contributions[i] {
                Contribution::HardSphere { b } => {
                    if b.len() == moles.len() {
                        let ntot = sum_fx(moles);
                        let bsum = dot_fx(moles, b);
                        return ntot.div(bsum).mul_int(9).div_int(10);
                    } else {
                        return Fx::one();
                    }
                },
                Contribution::MeanField { .. } => {
                    i = i + 1;
                },
            }
        }
    }

    fn evaluate_residual(&self, state: &StateHD) -> (r: Td) {
        let mut acc = Td::constant(Fx::zero());
        let mut k: usize = 0;
        while k < self.contributions.len()
            invariant
                self.spec_compatible(state.moles@.len()),
                0 <= k <= self.contributions@.len(),
                acc@ == residual_td(
                    self.contributions@,
                    state.temperature@,
                    state.volume@,
                    seq_m(state.moles@),
                    k as nat,
                ),
            decreases self.contributions@.len() - k,
        {
            let c = self.contributions[k].helmholtz_energy(state);
            acc = acc.add(c);
            k = k + 1;
        }
        acc
    }

    fn molar_weight(&self) -> (r: Result<Vec<Fx>, EosError>) {
        match &self.molar_weight {
            Some(w) => Ok(w.clone()),
            None => Err(EosError::MissingMolarWeight),
        }
    }

    fn validate_moles(&self, moles: Option<&Vec<Fx>>) -> (r: Result<Vec<Fx>, EosError>) {
        validate_moles_with(self.n_components, moles)
    }

    fn max_density(&self, moles: Option<&Vec<Fx>>) -> (r: Result<Fx, EosError>) {
        let m = self.validate_moles(moles)?;
        Ok(self.compute_max_density(&m))
    }
}

/// Shared composition check: absent moles are accepted exactly for a pure
/// component and default to the unit reference amount; a supplied vector
/// must match the component count.
pub fn validate_moles_with(components: usize, moles: Option<&Vec<Fx>>) -> (r: Result<
    Vec<Fx>,
    EosError,
>)
    ensures
        match r {
            Ok(v) => {
                &&& match moles {
                    Some(m) => components as nat == m@.len() && v@ == m@,
                    None => components == 1 && seq_m(v@) == seq![SCALE as int],
                }
            },
            Err(e) => {
                &&& match moles {
                    Some(m) => {
                        components as nat != m@.len() && e == EosError::IncompatibleComponents(
                            components,
                            m@.len() as usize,
                        )
                    },
                    None => {
                        components != 1 && e == EosError::IncompatibleComponents(components, 1)
                    },
                }
            },
        },
{
    match moles {
        Some(m) => {
            if m.len() == components {
                Ok(m.clone())
            } else {
                Err(EosError::IncompatibleComponents(components, m.len()))
            }
        },
        None => {
            if components == 1 {
                let mut v: Vec<Fx> = Vec::new();
                v.push(Fx::one());
                proof {
                    assert(seq_m(v@) =~= seq![SCALE as int]);
                }
                Ok(v)
            } else {
                Err(EosError::IncompatibleComponents(components, 1))
            }
        },
    }
}

/// A residual-free model with a component count: an ideal-gas-only
/// equation of state.
#[derive(Clone, Copy, PartialEq, Eq, Structural, Debug)]
pub struct NoResidual(pub usize);

impl Residual for NoResidual {
    open spec fn spec_components(&self) -> nat {
        self.0 as nat
    }

    open spec fn spec_max_density(&self, n: Seq<int>) -> int {
        SCALE as int
    }

    open spec fn spec_residual_td(&self, t: TdS, v: TdS, n: Seq<int>) -> TdS {
        td_const_spec(0)
    }

    open spec fn spec_molar_weight(&self) -> Option<Seq<int>> {
        None
    }

    open spec fn spec_compatible(&self, n_len: nat) -> bool {
        true
    }

    open spec fn spec_subset_ok(&self, component_list: Seq<usize>, r: Self) -> bool {
        r == NoResidual(component_list.len() as usize)
    }

    fn components(&self) -> (r: usize) {
        self.0
    }

    fn subset(&self, component_list: &[usize]) -> (r: NoResidual) {
        NoResidual(component_list.len())
    }

    fn compute_max_density(&self, _moles: &Vec<Fx>) -> (r: Fx) {
        Fx::one()
    }

    fn evaluate_residual(&self, _state: &StateHD) -> (r: Td) {
        Td::constant(Fx::zero())
    }

    fn molar_weight(&self) -> (r: Result<Vec<Fx>, EosError>) {
        Err(EosError::MissingMolarWeight)
    }

    fn validate_moles(&self, moles: Option<&Vec<Fx>>) -> (r: Result<Vec<Fx>, EosError>) {
        validate_moles_with(self.0, moles)
    }

    fn max_density(&self, moles: Option<&Vec<Fx>>) -> (r: Result<Fx, EosError>) {
        let m = self.validate_moles(moles)?;
        Ok(self.compute_max_density(&m))
    }
}

impl ResidualModel {
    /// Builds a model after checking that every contribution and the molar
    /// weights match the component count.
    #[verifier::loop_isolation(false)]
    pub fn new(
        n_components: usize,
        contributions: Vec<Contribution>,
        molar_weight: Option<Vec<Fx>>,
    ) -> (r: Result<ResidualModel, EosError>)
        ensures
            match r {
                Ok(m) => {
                    &&& m.wf()
                    &&& m.n_components == n_components
                    &&& m.contributions@ == contributions@
                    &&& m.molar_weight == molar_weight
                },
                Err(e) => e matches EosError::IncompatibleComponents(_, _),
            },
            r is Ok <==> ((forall|k: int|
                0 <= k < contributions@.len() ==> contribution_wf(
                    #[trigger] contributions@[k],
                    n_components as nat,
                )) && (match molar_weight {
                Some(w) => w@.len() == n_components as nat,
                None => true,
            })),
    {
        let nc = n_components;
        let mut k: usize = 0;
        while k < contributions.len()
            invariant
                0 <= k <= contributions@.len(),
                forall|p: int|
                    0 <= p < k ==> contribution_wf(#[trigger] contributions@[p], nc as nat),
            decreases contributions@.len() - k,
        {
            match &contributions[k] {
                Contribution::HardSphere { b } => {
                    if b.len() != nc {
                        proof {
                            assert(!contribution_wf(contributions@[k as int], nc as nat));
                        }
                        return Err(EosError::IncompatibleComponents(nc, b.len()));
                    }
                },
                Contribution::MeanField { a_ij } => {
                    if a_ij.len() != nc {
                        proof {
                            assert(!contribution_wf(contributions@[k as int], nc as nat));
                        }
                        return Err(EosError::IncompatibleComponents(nc, a_ij.len()));
                    }
                    let mut p: usize = 0;
                    while p < a_ij.len()
                        invariant
                            0 <= p <= a_ij@.len(),
                            a_ij@.len() == nc,
                            forall|q: int| 0 <= q < p ==> (#[trigger] a_ij@[q])@.len() == nc,
                        decreases a_ij@.len() - p,
                    {
                        if a_ij[p].len() != nc {
                            proof {
                                assert(!contribution_wf(contributions@[k as int], nc as nat));
                            }
                            return Err(EosError::IncompatibleComponents(nc, a_ij[p].len()));
                        }
                        p = p + 1;
                    }
                },
            }
            k = k + 1;
        }
        match &molar_weight {
            Some(w) => {
                if w.len() != nc {
                    return Err(EosError::IncompatibleComponents(nc, w.len()));
                }
            },
            None => {},
        }
        Ok(ResidualModel { n_components, contributions, molar_weight })
    }

    /// Evaluate each contribution's reduced Helmholtz energy, paired with
    /// its name, in declaration order; their sum is exactly the total
    /// residual, so the breakdown never alters it.
    pub fn evaluate_residual_contributions(&self, state: &StateHD) -> (r: Vec<(String, Td)>)
        requires
            self.spec_compatible(state.moles@.len()),
        ensures
            r@.len() == self.contributions@.len(),
            forall|k: int|
                0 <= k < r@.len() ==> (#[trigger] r@[k]).0@ == name_spec(self.contributions@[k]),
            forall|k: int|
                0 <= k < r@.len() ==> (#[trigger] r@[k]).1@ == contrib_td(
                    self.contributions@[k],
                    state.temperature@,
                    state.volume@,
                    seq_m(state.moles@),
                ),
            td_sum(r@.map_values(|p: (String, Td)| p.1@), r@.len()) == self.spec_residual_td(
                state.temperature@,
                state.volume@,
                seq_m(state.moles@),
            ),
    {
        let mut out: Vec<(String, Td)> = Vec::new();
        let mut k: usize = 0;
        while k < self.contributions.len()
            invariant
                self.spec_compatible(state.moles@.len()),
                0 <= k <= self.contributions@.len(),
                out@.len() == k,
                forall|p: int|
                    0 <= p < k ==> (#[trigger] out@[p]).0@ == name_spec(self.contributions@[p]),
                forall|p: int|
                    0 <= p < k ==> (#[trigger] out@[p]).1@ == contrib_td(
                        self.contributions@[p],
                        state.temperature@,
                        state.volume@,
                        seq_m(state.moles@),
                    ),
                td_sum(out@.map_values(|p: (String, Td)| p.1@), k as nat) == residual_td(
                    self.contributions@,
                    state.temperature@,
                    state.volume@,
                    seq_m(state.moles@),
                    k as nat,
                ),
            decreases self.contributions@.len() - k,
        {
            let c = &self.contributions[k];
            let value = c.helmholtz_energy(state);
            let ghost before = out@;
            out.push((c.name(), value));
            proof {
                let f = |p: (String, Td)| p.1@;
                assert(out@.map_values(f) =~= before.map_values(f).push(value@));
                lemma_td_sum_push(before.map_values(f), value@, k as nat);
                assert(out@.map_values(f)[k as int] == value@);
            }
            k = k + 1;
        }
        out
    }
}

/// A full equation of state: a residual model paired with its ideal-gas
/// reference.
#[derive(Clone, Debug)]
pub struct EquationOfState {
    /// The residual model.
    pub residual: ResidualModel,
    /// The ideal-gas reference.
    pub ideal_gas: IdealGasModel,
}

/// The selected reduced Helmholtz energy of a full equation of state at
/// dual precision.
pub open spec fn eos_td(
    eos: EquationOfState,
    t: TdS,
    v: TdS,
    n: Seq<int>,
    which: Contributions,
) -> TdS {
    let res = residual_td(eos.residual.contributions@, t, v, n, eos.residual.contributions@.len());
    let ig = ig_td(v, n, n.len());
    match which {
        Contributions::Total => td_add(ig, res),
        Contributions::Residual => res,
        Contributions::IdealGas => ig,
    }
}

impl EquationOfState {
    /// Pair a residual model with the ideal-gas reference.
    pub fn new(residual: ResidualModel, ideal_gas: IdealGasModel) -> (r: EquationOfState)
        ensures
            r.residual == residual,
            r.ideal_gas == ideal_gas,
    {
        EquationOfState { residual, ideal_gas }
    }

    /// The number of components.
    pub fn components(&self) -> (r: usize)
        ensures
            r as nat == self.residual.spec_components(),
    {
        self.residual.components()
    }

    /// Evaluate the selected reduced Helmholtz energy at dual precision.
    pub fn evaluate(&self, state: &StateHD, which: Contributions) -> (r: Td)
        requires
            self.residual.spec_compatible(state.moles@.len()),
        ensures
            r@ == eos_td(*self, state.temperature@, state.volume@, seq_m(state.moles@), which),
    {
        match which {
            Contributions::Total => {
                let ig = self.ideal_gas.helmholtz_energy(state);
                let res = self.residual.evaluate_residual(state);
                ig.add(res)
            },
            Contributions::Residual => self.residual.evaluate_residual(state),
            Contributions::IdealGas => self.ideal_gas.helmholtz_energy(state),
        }
    }
}

/// The reciprocal of the volume at value level.
pub open spec fn inv_of(v: int) -> int {
    crate::fixed::div_spec(SCALE as int, v)
}

/// The gradient-dual mole-number variables of a composition.
pub open spec fn gd_vars(n: Seq<int>, i: int) -> crate::grad::GdS {
    crate::grad::gd_var(n[i], n.len(), i)
}

/// The gradient-dual total mole number over the first `k` components.
pub open spec fn gd_ntot(n: Seq<int>, k: nat) -> crate::grad::GdS
    decreases k,
{
    if k == 0 {
        crate::grad::gd_const(0, n.len())
    } else {
        crate::grad::gd_add(gd_ntot(n, (k - 1) as nat), gd_vars(n, k - 1 as int))
    }
}

/// The gradient-dual covolume sum over the first `k` components.
pub open spec fn gd_bsum(b: Seq<int>, n: Seq<int>, k: nat) -> crate::grad::GdS
    decreases k,
{
    if k == 0 {
        crate::grad::gd_const(0, n.len())
    } else {
        crate::grad::gd_add(
            gd_bsum(b, n, (k - 1) as nat),
            crate::grad::gd_scale(gd_vars(n, k - 1 as int), b[k - 1]),
        )
    }
}

/// The gradient-dual row sum of the mean-field matrix.
pub open spec fn gd_rowdot(a_row: Seq<int>, n: Seq<int>, k: nat) -> crate::grad::GdS
    decreases k,
{
    if k == 0 {
        crate::grad::gd_const(0, n.len())
    } else {
        crate::grad::gd_add(
            gd_rowdot(a_row, n, (k - 1) as nat),
            crate::grad::gd_scale(gd_vars(n, k - 1 as int), a_row[k - 1]),
        )
    }
}

/// The gradient-dual quadratic form of the mean-field matrix.
pub open spec fn gd_quad(a: Seq<Seq<int>>, n: Seq<int>, k: nat) -> crate::grad::GdS
    decreases k,
{
    if k == 0 {
        crate::grad::gd_const(0, n.len())
    } else {
        crate::grad::gd_add(
            gd_quad(a, n, (k - 1) as nat),
            crate::grad::gd_mul(gd_vars(n, k - 1 as int), gd_rowdot(a[k - 1], n, n.len())),
        )
    }
}

/// One contribution's reduced Helmholtz energy with composition
/// derivatives, at fixed temperature and volume.
pub open spec fn contrib_gd(c: Contribution, t: int, v: int, n: Seq<int>) -> crate::grad::GdS {
    match c {
        Contribution::HardSphere { b } => {
            let bsum = gd_bsum(seq_m(b@), n, n.len());
            let u = crate::grad::gd_add(
                crate::grad::gd_const(SCALE as int, n.len()),
                crate::grad::gd_neg(crate::grad::gd_scale(bsum, inv_of(v))),
            );
            crate::grad::gd_neg(crate::grad::gd_mul(crate::grad::gd_ln(u), gd_ntot(n, n.len())))
        },
        Contribution::MeanField { a_ij } => {
            let amix = gd_quad(a_ij@.map_values(|row: Vec<Fx>| seq_m(row@)), n, n.len());
            crate::grad::gd_neg(
                crate::grad::gd_scale(amix, crate::fixed::div_spec(SCALE as int, mul_spec(t, v))),
            )
        },
    }
}

/// The sum of the first `k` contributions with composition derivatives.
pub open spec fn residual_gd(
    cs: Seq<Contribution>,
    t: int,
    v: int,
    n: Seq<int>,
    k: nat,
) -> crate::grad::GdS
    decreases k,
{
    if k == 0 {
        crate::grad::gd_const(0, n.len())
    } else {
        crate::grad::gd_add(residual_gd(cs, t, v, n, (k - 1) as nat), contrib_gd(cs[k - 1], t, v, n))
    }
}

/// The ideal-gas contribution with composition derivatives.
pub open spec fn ig_gd(v: int, n: Seq<int>, k: nat) -> crate::grad::GdS
    decreases k,
{
    if k == 0 {
        crate::grad::gd_const(0, n.len())
    } else {
        let ni = gd_vars(n, k - 1 as int);
        let li = crate::grad::gd_ln(crate::grad::gd_scale(ni, inv_of(v)));
        let term = crate::grad::gd_mul(
            crate::grad::gd_add(li, crate::grad::gd_const(clip(-(SCALE as int)), n.len())),
            ni,
        );
        crate::grad::gd_add(ig_gd(v, n, (k - 1) as nat), term)
    }
}

/// The selected reduced Helmholtz energy with composition derivatives.
pub open spec fn eos_gd(
    eos: EquationOfState,
    t: int,
    v: int,
    n: Seq<int>,
    which: Contributions,
) -> crate::grad::GdS {
    let res = residual_gd(eos.residual.contributions@, t, v, n, eos.residual.contributions@.len());
    let ig = ig_gd(v, n, n.len());
    match which {
        Contributions::Total => crate::grad::gd_add(ig, res),
        Contributions::Residual => res,
        Contributions::IdealGas => ig,
    }
}

impl Contribution {
    /// One contribution's reduced Helmholtz energy with composition
    /// derivatives.
    pub fn helmholtz_energy_grad(&self, t: Fx, v: Fx, n: &Vec<Fx>) -> (r: crate::grad::Gd)
        requires
            contribution_wf(*self, n@.len()),
        ensures
            r@ == contrib_gd(*self, t@, v@, seq_m(n@)),
    {
        let len = n.len();
        match self {
            Contribution::HardSphere { b } => {
                let inv_v = Fx::one().div(v);
                let mut bsum = crate::grad::Gd::constant(Fx::zero(), len);
                let mut ntot = crate::grad::Gd::constant(Fx::zero(), len);
                let mut i: usize = 0;
                while i < len
                    invariant
                        0 <= i <= len,
                        len == n@.len(),
                        b@.len() == len,
                        bsum@ == gd_bsum(seq_m(b@), seq_m(n@), i as nat),
                        ntot@ == gd_ntot(seq_m(n@), i as nat),
                        bsum.g@.len() == len,
                        ntot.g@.len() == len,
                    decreases len - i,
                {
                    let ni = crate::grad::Gd::variable(n[i], len, i);
                    proof {
                        assert(ni@ == gd_vars(seq_m(n@), i as int));
                    }
                    bsum = bsum.add(&ni.scale(b[i]));
                    ntot = ntot.add(&ni);
                    i = i + 1;
                }
                let u = crate::grad::Gd::constant(Fx::one(), len).add(
                    &bsum.scale(inv_v).neg(),
                );
                u.ln().mul(&ntot).neg()
            },
            Contribution::MeanField { a_ij } => {
                let inv_tv = Fx::one().div(t.mul(v));
                let mut amix = crate::grad::Gd::constant(Fx::zero(), len);
                let mut i: usize = 0;
                proof {
                    assert(a_ij@.map_values(|row: Vec<Fx>| seq_m(row@)).len() == a_ij@.len());
                }
                while i < len
                    invariant
                        0 <= i <= len,
                        len == n@.len(),
                        a_ij@.len() == len,
                        forall|p: int| 0 <= p < len ==> (#[trigger] a_ij@[p])@.len() == len,
                        amix@ == gd_quad(
                            a_ij@.map_values(|row: Vec<Fx>| seq_m(row@)),
                            seq_m(n@),
                            i as nat,
                        ),
                        amix.g@.len() == len,
                    decreases len - i,
                {
                    let row = &a_ij[i];
                    let mut rowdot = crate::grad::Gd::constant(Fx::zero(), len);
                    let mut j: usize = 0;
                    while j < len
                        invariant
                            0 <= j <= len,
                            0 <= i < len,
                            len == n@.len(),
                            a_ij@.len() == len,
                            row == &a_ij@[i as int],
                            row@.len() == len,
                            rowdot@ == gd_rowdot(seq_m(row@), seq_m(n@), j as nat),
                            rowdot.g@.len() == len,
                        decreases len - j,
                    {
                        let nj = crate::grad::Gd::variable(n[j], len, j);
                        proof {
                            assert(nj@ == gd_vars(seq_m(n@), j as int));
                        }
                        rowdot = rowdot.add(&nj.scale(row[j]));
                        j = j + 1;
                    }
                    let ni = crate::grad::Gd::variable(n[i], len, i);
                    proof {
                        assert(ni@ == gd_vars(seq_m(n@), i as int));
                        assert(a_ij@.map_values(|r2: Vec<Fx>| seq_m(r2@))[i as int] == seq_m(
                            a_ij@[i as int]@,
                        ));
                    }
                    amix = amix.add(&ni.mul(&rowdot));
                    i = i + 1;
                }
                amix.scale(inv_tv).neg()
            },
        }
    }
}

impl EquationOfState {
    /// Evaluate the selected reduced Helmholtz energy with composition
    /// derivatives, at fixed temperature and volume.
    pub fn evaluate_grad(&self, t: Fx, v: Fx, n: &Vec<Fx>, which: Contributions) -> (r:
        crate::grad::Gd)
        requires
            self.residual.spec_compatible(n@.len()),
        ensures
            r@ == eos_gd(*self, t@, v@, seq_m(n@), which),
            r.g@.len() == n@.len(),
    {
        match which {
            Contributions::Total => {
                let ig = self.ideal_gas_grad(v, n);
                let res = self.residual_grad(t, v, n);
                ig.add(&res)
            },
            Contributions::Residual => self.residual_grad(t, v, n),
            Contributions::IdealGas => self.ideal_gas_grad(v, n),
        }
    }

    /// The residual part with composition derivatives.
    fn residual_grad(&self, t: Fx, v: Fx, n: &Vec<Fx>) -> (r: crate::grad::Gd)
        requires
            self.residual.spec_compatible(n@.len()),
        ensures
            r@ == residual_gd(
                self.residual.contributions@,
                t@,
                v@,
                seq_m(n@),
                self.residual.contributions@.len(),
            ),
            r.g@.len() == n@.len(),
    {
        let len = n.len();
        let mut acc = crate::grad::Gd::constant(Fx::zero(), len);
        let mut k: usize = 0;
        while k < self.residual.contributions.len()
            invariant
                self.residual.spec_compatible(n@.len()),
                len == n@.len(),
                0 <= k <= self.residual.contributions@.len(),
                acc@ == residual_gd(self.residual.contributions@, t@, v@, seq_m(n@), k as nat),
                acc.g@.len() == len,
            decreases self.residual.contributions@.len() - k,
        {
            let c = self.residual.contributions[k].helmholtz_energy_grad(t, v, n);
            proof {
                assert(c@.g.len() == n@.len()) by {
                    grad_len_ok(self.residual.contributions@[k as int], t@, v@, seq_m(n@));
                };
            }
            acc = acc.add(&c);
            k = k + 1;
        }
        acc
    }

    /// The ideal-gas part with composition derivatives.
    fn ideal_gas_grad(&self, v: Fx, n: &Vec<Fx>) -> (r: crate::grad::Gd)
        ensures
            r@ == ig_gd(v@, seq_m(n@), n@.len()),
            r.g@.len() == n@.len(),
    {
        let len = n.len();
        let inv_v = Fx::one().div(v);
        let neg_one = Fx::one().neg();
        let mut acc = crate::grad::Gd::constant(Fx::zero(), len);
        let mut k: usize = 0;
        while k < len
            invariant
                0 <= k <= len,
                len == n@.len(),
                inv_v@ == crate::fixed::div_spec(SCALE as int, v@),
                neg_one@ == clip(-(SCALE as int)),
                acc@ == ig_gd(v@, seq_m(n@), k as nat),
                acc.g@.len() == len,
            decreases len - k,
        {
            let ni = crate::grad::Gd::variable(n[k], len, k);
            proof {
                assert(ni@ == gd_vars(seq_m(n@), k as int));
            }
            let li = ni.scale(inv_v).ln();
            let term = li.add(&crate::grad::Gd::constant(neg_one, len)).mul(&ni);
            acc = acc.add(&term);
            k = k + 1;
        }
        acc
    }
}

/// The quadratic form's gradient has one channel per component.
proof fn gd_quad_len(a: Seq<Seq<int>>, n: Seq<int>, k: nat)
    ensures
        gd_quad(a, n, k).g.len() == n.len(),
    decreases k,
{
    if k > 0 {
        gd_quad_len(a, n, (k - 1) as nat);
    }
}

/// The gradient of a contribution has one channel per component.
proof fn grad_len_ok(c: Contribution, t: int, v: int, n: Seq<int>)
    ensures
        contrib_gd(c, t, v, n).g.len() == n.len(),
{
    match c {
        Contribution::HardSphere { b } => {
            assert(contrib_gd(c, t, v, n).g.len() == n.len());
        },
        Contribution::MeanField { a_ij } => {
            gd_quad_len(a_ij@.map_values(|row: Vec<Fx>| seq_m(row@)), n, n.len());
            assert(contrib_gd(c, t, v, n).g.len() == n.len());
        },
    }
}

} // verus!
