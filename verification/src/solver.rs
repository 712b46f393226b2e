//! State construction by Newton iteration with bisection safeguards.
//!
//! Each construction request resolves once and returns: a state whose
//! specified properties are met within tolerance, or a typed error. A
//! returned state always satisfies its defining equations at spec level;
//! an exhausted iteration budget is reported, never passed off as success.

use vstd::prelude::*;

use crate::error::EosError;
use crate::fixed::{clip, mul_spec, seq_m, sub_spec, Fx, SCALE};
use crate::model::{sum_seq, Contributions, EquationOfState, Residual};
use crate::state::{
    molar_enthalpy_spec, molar_entropy_spec, molar_internal_energy_spec, pressure_spec, props_td,
    State,
};

verus! {

/// How much a solver reports while it runs.
#[derive(Clone, Copy, PartialEq, Eq, Structural, Debug)]
pub enum Verbosity {
    /// No reporting.
    Silent,
    /// Callers may render a log of the iterates.
    IterationLog,
}

/// The uniform configuration of every iterative solver.
#[derive(Clone, Copy, PartialEq, Eq, Structural, Debug)]
pub struct SolverOptions {
    /// Iteration budget.
    pub max_iterations: usize,
    /// Relative residual tolerance.
    pub tolerance: Fx,
    /// Reporting level.
    pub verbosity: Verbosity,
}

impl Default for SolverOptions {
    /// A few hundred iterations and the finest relative tolerance the
    /// scalar resolution supports.
    fn default() -> (r: SolverOptions)
        ensures
            r.max_iterations == 400,
            r.tolerance@ == 64,
            r.verbosity == Verbosity::Silent,
    {
        SolverOptions { max_iterations: 400, tolerance: Fx { m: 64 }, verbosity: Verbosity::Silent }
    }
}

/// The seed for an iterative density resolution.
#[derive(Clone, Copy, PartialEq, Eq, Structural, Debug)]
pub enum DensityInitialization {
    /// Start from a low, vapor-like density.
    Vapor,
    /// Start near the model's maximum-density estimate.
    Liquid,
    /// Start from an explicit density.
    InitialDensity(Fx),
    /// Try both branches and keep the state of lower Helmholtz energy.
    Unspecified,
}

/// A residual property a construction request can pin.
#[derive(Clone, Copy, PartialEq, Eq, Structural, Debug)]
pub enum PropKind {
    /// Pressure.
    Pressure,
    /// Molar enthalpy.
    MolarEnthalpy,
    /// Molar entropy.
    MolarEntropy,
    /// Molar internal energy.
    MolarInternalEnergy,
}

/// Absolute value with saturation, as the scalar type computes it.
pub open spec fn fx_abs(x: int) -> int {
    if x >= 0 {
        x
    } else {
        clip(-x)
    }
}

/// The reference magnitude of a target: at least the unit, so a relative
/// tolerance never collapses to zero.
pub open spec fn scale_ref(x: int) -> int {
    if fx_abs(x) >= SCALE as int {
        fx_abs(x)
    } else {
        SCALE as int
    }
}

/// The value of a pinned property at a state, always of the total
/// Helmholtz energy.
pub open spec fn prop_spec(
    eos: EquationOfState,
    t: int,
    v: int,
    n: Seq<int>,
    kind: PropKind,
) -> int {
    match kind {
        PropKind::Pressure => pressure_spec(eos, t, v, n, Contributions::Total),
        PropKind::MolarEnthalpy => molar_enthalpy_spec(eos, t, v, n, Contributions::Total),
        PropKind::MolarEntropy => molar_entropy_spec(eos, t, v, n, Contributions::Total),
        PropKind::MolarInternalEnergy => molar_internal_energy_spec(
            eos,
            t,
            v,
            n,
            Contributions::Total,
        ),
    }
}

/// Whether a property meets its target within the relative tolerance.
pub open spec fn within_tol(
    eos: EquationOfState,
    t: int,
    v: int,
    n: Seq<int>,
    kind: PropKind,
    target: int,
    tol: int,
) -> bool {
    fx_abs(sub_spec(prop_spec(eos, t, v, n, kind), target)) <= mul_spec(tol, scale_ref(target))
}

/// The reference magnitude of a target.
pub fn scale_ref_fx(x: Fx) -> (r: Fx)
    ensures
        r@ == scale_ref(x@),
{
    let a = x.abs();
    if a.m >= SCALE {
        a
    } else {
        Fx::one()
    }
}


/// The temperature derivative of a pinned property, exactly as the dual
/// channels yield it.
pub open spec fn prop_dt_spec(
    eos: EquationOfState,
    t: int,
    v: int,
    n: Seq<int>,
    kind: PropKind,
) -> int {
    let a = props_td(eos, t, v, n, Contributions::Total);
    let ntot = sum_seq(n);
    match kind {
        PropKind::Pressure => crate::state::dp_dt_spec(eos, t, v, n, Contributions::Total),
        PropKind::MolarEnthalpy => crate::fixed::div_spec(
            crate::fixed::add_spec(
                clip(
                    -crate::fixed::add_spec(
                        clip(mul_spec(t, a.a10) * 2),
                        mul_spec(mul_spec(t, t), clip(a.a20 * 2)),
                    ),
                ),
                mul_spec(v, crate::state::dp_dt_spec(eos, t, v, n, Contributions::Total)),
            ),
            ntot,
        ),
        PropKind::MolarEntropy => crate::fixed::div_spec(
            clip(-crate::fixed::add_spec(clip(a.a10 * 2), mul_spec(t, clip(a.a20 * 2)))),
            ntot,
        ),
        PropKind::MolarInternalEnergy => crate::fixed::div_spec(
            clip(
                -crate::fixed::add_spec(
                    clip(mul_spec(t, a.a10) * 2),
                    mul_spec(mul_spec(t, t), clip(a.a20 * 2)),
                ),
            ),
            ntot,
        ),
    }
}

/// The volume derivative of a pinned property, exactly as the dual
/// channels yield it.
pub open spec fn prop_dv_spec(
    eos: EquationOfState,
    t: int,
    v: int,
    n: Seq<int>,
    kind: PropKind,
) -> int {
    let a = props_td(eos, t, v, n, Contributions::Total);
    let ntot = sum_seq(n);
    match kind {
        PropKind::Pressure => crate::state::dp_dv_spec(eos, t, v, n, Contributions::Total),
        PropKind::MolarEnthalpy => crate::fixed::div_spec(
            crate::fixed::add_spec(
                crate::fixed::add_spec(
                    clip(-mul_spec(mul_spec(t, t), a.a11)),
                    mul_spec(v, crate::state::dp_dv_spec(eos, t, v, n, Contributions::Total)),
                ),
                pressure_spec(eos, t, v, n, Contributions::Total),
            ),
            ntot,
        ),
        PropKind::MolarEntropy => crate::fixed::div_spec(
            clip(-crate::fixed::add_spec(a.a01, mul_spec(t, a.a11))),
            ntot,
        ),
        PropKind::MolarInternalEnergy => crate::fixed::div_spec(
            clip(-mul_spec(mul_spec(t, t), a.a11)),
            ntot,
        ),
    }
}

impl State {
    /// The value of a pinned property at this state, with its temperature
    /// and volume derivatives, read from one dual evaluation; the Newton
    /// steps use exactly these channel values, never finite differences.
    pub fn prop_and_derivs(&self, eos: &EquationOfState, kind: PropKind) -> (r: (Fx, Fx, Fx))
        requires
            self.compatible(*eos),
        ensures
            r.0@ == prop_spec(*eos, self.temperature@, self.volume@, seq_m(self.moles@), kind),
            r.1@ == prop_dt_spec(*eos, self.temperature@, self.volume@, seq_m(self.moles@), kind),
            r.2@ == prop_dv_spec(*eos, self.temperature@, self.volume@, seq_m(self.moles@), kind),
    {
        let which = Contributions::Total;
        match kind {
            PropKind::Pressure => {
                let f = self.pressure(eos, which);
                let ft = self.dp_dt(eos, which);
                let fv = self.dp_dv(eos, which);
                (f, ft, fv)
            },
            PropKind::MolarEnthalpy => {
                let ntot = self.total_moles();
                let f = self.molar_enthalpy(eos, which);
                let a = self.eval_total(eos);
                let t = self.temperature;
                let v = self.volume;
                let dpdt = self.dp_dt(eos, which);
                let dpdv = self.dp_dv(eos, which);
                let p = self.pressure(eos, which);
                let dh_dt = t.mul(a.d_t()).mul_int(2).add(t.mul(t).mul(a.d_tt())).neg().add(
                    v.mul(dpdt),
                ).div(ntot);
                let dh_dv = t.mul(t).mul(a.d_tv()).neg().add(v.mul(dpdv)).add(p).div(ntot);
                (f, dh_dt, dh_dv)
            },
            PropKind::MolarEntropy => {
                let ntot = self.total_moles();
                let f = self.molar_entropy(eos, which);
                let a = self.eval_total(eos);
                let t = self.temperature;
                let ds_dt = a.d_t().mul_int(2).add(t.mul(a.d_tt())).neg().div(ntot);
                let ds_dv = a.d_v().add(t.mul(a.d_tv())).neg().div(ntot);
                (f, ds_dt, ds_dv)
            },
            PropKind::MolarInternalEnergy => {
                let ntot = self.total_moles();
                let f = self.molar_internal_energy(eos, which);
                let a = self.eval_total(eos);
                let t = self.temperature;
                let du_dt = t.mul(a.d_t()).mul_int(2).add(t.mul(t).mul(a.d_tt())).neg().div(ntot);
                let du_dv = t.mul(t).mul(a.d_tv()).neg().div(ntot);
                (f, du_dt, du_dv)
            },
        }
    }

    /// The dual evaluation of the total Helmholtz energy at this state.
    fn eval_total(&self, eos: &EquationOfState) -> (r: crate::taylor::Td)
        requires
            self.compatible(*eos),
        ensures
            r@ == props_td(
                *eos,
                self.temperature@,
                self.volume@,
                seq_m(self.moles@),
                Contributions::Total,
            ),
    {
        let hd = crate::model::StateHD::new(
            self.temperature,
            self.volume,
            crate::state::clone_fx_vec(&self.moles),
        );
        eos.evaluate(&hd, Contributions::Total)
    }
}


/// The density a resolution starts from: the requested initial density,
/// clamped to the model's maximum-density estimate.
pub open spec fn seed_density(eos: EquationOfState, n: Seq<int>, initial: int) -> int {
    let rho_max = eos.residual.spec_max_density(n);
    if rho_max < initial {
        rho_max
    } else {
        initial
    }
}

/// The volume of the seed iterate of a density resolution.
pub open spec fn seed_volume_of(eos: EquationOfState, n: Seq<int>, initial: int) -> int {
    crate::fixed::div_spec(sum_seq(n), seed_density(eos, n, initial))
}

/// Whether the seed iterate of a density resolution is admissible and
/// already meets the pressure target: the least success a run must turn
/// into an Ok.
pub open spec fn density_seed_hits(
    eos: EquationOfState,
    t: int,
    n: Seq<int>,
    initial: int,
    p: int,
    tol: int,
) -> bool {
    &&& initial > 0
    &&& eos.residual.spec_max_density(n) > 0
    &&& seed_volume_of(eos, n, initial) > 0
    &&& within_tol(eos, t, seed_volume_of(eos, n, initial), n, PropKind::Pressure, p, tol)
}

/// Physical well-formedness of a composition vector.
pub open spec fn moles_ok(n: Seq<int>) -> bool {
    &&& forall|i: int| 0 <= i < n.len() ==> #[trigger] n[i] >= 0
    &&& sum_seq(n) > 0
}

/// Resolve the volume at a given temperature so that the pressure meets
/// its target, by Newton steps on the density with bisection fallbacks
/// into the physical bracket. The returned state meets the target within
/// the relative tolerance; an exhausted budget is always reported, and a
/// seed that already meets the target must succeed.
#[verifier::loop_isolation(false)]
pub fn density_iteration(
    eos: &EquationOfState,
    temperature: Fx,
    pressure: Fx,
    moles: &Vec<Fx>,
    initial_density: Fx,
    options: SolverOptions,
) -> (r: Result<State, EosError>)
    requires
        eos.residual.spec_compatible(moles@.len()),
        moles_ok(seq_m(moles@)),
        temperature@ > 0,
    ensures
        match r {
            Ok(st) => {
                &&& st.wf()
                &&& st.compatible(*eos)
                &&& st.temperature == temperature
                &&& st.moles@ == moles@
                &&& within_tol(
                    *eos,
                    temperature@,
                    st.volume@,
                    seq_m(st.moles@),
                    PropKind::Pressure,
                    pressure@,
                    options.tolerance@,
                )
            },
            Err(e) => {
                ||| e == EosError::NotConverged(options.max_iterations)
                ||| e == EosError::DomainError
            },
        },
        (options.max_iterations > 0 && density_seed_hits(
            *eos,
            temperature@,
            seq_m(moles@),
            initial_density@,
            pressure@,
            options.tolerance@,
        )) ==> (r matches Ok(st) && st.volume@ == seed_volume_of(
            *eos,
            seq_m(moles@),
            initial_density@,
        )),
{
    let ntot = crate::model::sum_fx(moles);
    let rho_max = eos.residual.compute_max_density(moles);
    if !rho_max.is_pos() {
        return Err(EosError::DomainError);
    }
    let mut rho = initial_density;
    if !rho.is_pos() {
        return Err(EosError::DomainError);
    }
    if rho_max.lt(rho) {
        rho = rho_max;
    }
    let tol_abs = options.tolerance.mul(scale_ref_fx(pressure));
    let ghost hits = options.max_iterations > 0 && density_seed_hits(
        *eos,
        temperature@,
        seq_m(moles@),
        initial_density@,
        pressure@,
        options.tolerance@,
    );
    let mut iter: usize = 0;
    while iter < options.max_iterations
        invariant
            rho@ > 0,
            hits ==> iter == 0 && rho@ == seed_density(
                *eos,
                seq_m(moles@),
                initial_density@,
            ),
        decreases options.max_iterations - iter,
    {
        let volume = ntot.div(rho);
        if !volume.is_pos() {
            return Err(EosError::DomainError);
        }
        let st = State {
            temperature,
            volume,
            moles: crate::state::clone_fx_vec(moles),
        };
        let (f0, _ft, _fv) = st.prop_and_derivs(eos, PropKind::Pressure);
        let f = f0.sub(pressure);
        if f.abs().le(tol_abs) {
            proof {
                assert forall|i: int| 0 <= i < st.moles@.len() implies (
                    #[trigger] st.moles@[i])@ >= 0 by {
                    assert(seq_m(st.moles@)[i] == st.moles@[i]@);
                    assert(seq_m(st.moles@)[i] >= 0);
                };
            }
            return Ok(st);
        }
        let dpdrho = st.dp_drho(eos, Contributions::Total);
        let mut next = rho;
        if dpdrho.is_zero() {
            next = rho.midpoint(rho_max);
        } else {
            let step = f.div(dpdrho);
            let cand = rho.sub(step);
            if !cand.is_pos() {
                next = rho.div_int(2);
            } else if rho_max.lt(cand) {
                next = rho.midpoint(rho_max);
            } else {
                next = cand;
            }
        }
        if !next.is_pos() {
            return Err(EosError::DomainError);
        }
        rho = next;
        iter = iter + 1;
    }
    Err(EosError::NotConverged(options.max_iterations))
}

/// Resolve the density from an initialization hint: an explicit seed, a
/// vapor-like or liquid-like bracket, or both branches with the
/// lower-Helmholtz-energy state kept.
pub fn resolve_density(
    eos: &EquationOfState,
    temperature: Fx,
    pressure: Fx,
    moles: &Vec<Fx>,
    hint: DensityInitialization,
    options: SolverOptions,
) -> (r: Result<State, EosError>)
    requires
        eos.residual.spec_compatible(moles@.len()),
        moles_ok(seq_m(moles@)),
        temperature@ > 0,
    ensures
        match r {
            Ok(st) => {
                &&& st.wf()
                &&& st.compatible(*eos)
                &&& st.temperature == temperature
                &&& st.moles@ == moles@
                &&& within_tol(
                    *eos,
                    temperature@,
                    st.volume@,
                    seq_m(st.moles@),
                    PropKind::Pressure,
                    pressure@,
                    options.tolerance@,
                )
            },
            Err(e) => {
                ||| e == EosError::NotConverged(options.max_iterations)
                ||| e == EosError::DomainError
            },
        },
        hint matches DensityInitialization::InitialDensity(rho0) ==> ((options.max_iterations
            > 0 && density_seed_hits(
            *eos,
            temperature@,
            seq_m(moles@),
            rho0@,
            pressure@,
            options.tolerance@,
        )) ==> (r matches Ok(st) && st.volume@ == seed_volume_of(*eos, seq_m(moles@), rho0@))),
        (options.max_iterations > 0 && hint == DensityInitialization::Vapor && density_seed_hits(
            *eos,
            temperature@,
            seq_m(moles@),
            vapor_seed_spec(
                temperature@,
                pressure@,
                eos.residual.spec_max_density(seq_m(moles@)),
            ),
            pressure@,
            options.tolerance@,
        )) ==> (r matches Ok(st) && st.volume@ == seed_volume_of(
            *eos,
            seq_m(moles@),
            vapor_seed_spec(
                temperature@,
                pressure@,
                eos.residual.spec_max_density(seq_m(moles@)),
            ),
        )),
        (options.max_iterations > 0 && hint == DensityInitialization::Liquid && density_seed_hits(
            *eos,
            temperature@,
            seq_m(moles@),
            liquid_seed_spec(eos.residual.spec_max_density(seq_m(moles@))),
            pressure@,
            options.tolerance@,
        )) ==> (r matches Ok(st) && st.volume@ == seed_volume_of(
            *eos,
            seq_m(moles@),
            liquid_seed_spec(eos.residual.spec_max_density(seq_m(moles@))),
        )),
        (options.max_iterations > 0 && (hint matches DensityInitialization::Unspecified)
            && density_seed_hits(
            *eos,
            temperature@,
            seq_m(moles@),
            vapor_seed_spec(
                temperature@,
                pressure@,
                eos.residual.spec_max_density(seq_m(moles@)),
            ),
            pressure@,
            options.tolerance@,
        ) && density_seed_hits(
            *eos,
            temperature@,
            seq_m(moles@),
            liquid_seed_spec(eos.residual.spec_max_density(seq_m(moles@))),
            pressure@,
            options.tolerance@,
        )) ==> (r matches Ok(st) && st.volume@ == ({
            let n = seq_m(moles@);
            let rho_max = eos.residual.spec_max_density(n);
            let vv = seed_volume_of(*eos, n, vapor_seed_spec(temperature@, pressure@, rho_max));
            let lv = seed_volume_of(*eos, n, liquid_seed_spec(rho_max));
            if crate::state::helmholtz_spec(*eos, temperature@, vv, n, Contributions::Total)
                <= crate::state::helmholtz_spec(*eos, temperature@, lv, n, Contributions::Total) {
                vv
            } else {
                lv
            }
        })),
        (options.max_iterations > 0 && (match hint {
            DensityInitialization::InitialDensity(rho0) => density_seed_hits(
                *eos,
                temperature@,
                seq_m(moles@),
                rho0@,
                pressure@,
                options.tolerance@,
            ),
            DensityInitialization::Vapor => density_seed_hits(
                *eos,
                temperature@,
                seq_m(moles@),
                vapor_seed_spec(
                    temperature@,
                    pressure@,
                    eos.residual.spec_max_density(seq_m(moles@)),
                ),
                pressure@,
                options.tolerance@,
            ),
            DensityInitialization::Liquid => density_seed_hits(
                *eos,
                temperature@,
                seq_m(moles@),
                liquid_seed_spec(eos.residual.spec_max_density(seq_m(moles@))),
                pressure@,
                options.tolerance@,
            ),
            DensityInitialization::Unspecified => density_seed_hits(
                *eos,
                temperature@,
                seq_m(moles@),
                vapor_seed_spec(
                    temperature@,
                    pressure@,
                    eos.residual.spec_max_density(seq_m(moles@)),
                ),
                pressure@,
                options.tolerance@,
            ) || density_seed_hits(
                *eos,
                temperature@,
                seq_m(moles@),
                liquid_seed_spec(eos.residual.spec_max_density(seq_m(moles@))),
                pressure@,
                options.tolerance@,
            ),
        })) ==> (r is Ok),
{
    let rho_max = eos.residual.compute_max_density(moles);
    if !rho_max.is_pos() {
        return Err(EosError::DomainError);
    }
    match hint {
        DensityInitialization::InitialDensity(rho0) => {
            density_iteration(eos, temperature, pressure, moles, rho0, options)
        },
        DensityInitialization::Vapor => {
            density_iteration(eos, temperature, pressure, moles, vapor_seed(
                temperature,
                pressure,
                rho_max,
            ), options)
        },
        DensityInitialization::Liquid => {
            density_iteration(eos, temperature, pressure, moles, liquid_seed(rho_max), options)
        },
        DensityInitialization::Unspecified => {
            let sv = density_iteration(eos, temperature, pressure, moles, vapor_seed(
                temperature,
                pressure,
                rho_max,
            ), options);
            let sl = density_iteration(eos, temperature, pressure, moles, liquid_seed(rho_max), options);
            match (sv, sl) {
                (Ok(v), Ok(l)) => {
                    let av = v.helmholtz_energy(eos, Contributions::Total);
                    let al = l.helmholtz_energy(eos, Contributions::Total);
                    if av.le(al) {
                        Ok(v)
                    } else {
                        Ok(l)
                    }
                },
                (Ok(v), Err(_)) => Ok(v),
                (Err(_), Ok(l)) => Ok(l),
                (Err(e), Err(_)) => Err(e),
            }
        },
    }
}

/// A vapor-like density seed, as the resolution computes it: the
/// ideal-gas estimate, kept inside the physical bracket.
pub open spec fn vapor_seed_spec(t: int, p: int, rho_max: int) -> int {
    let ideal = crate::fixed::div_spec(p, t);
    let half = crate::fixed::tdiv(rho_max, 2);
    if ideal > 0 && ideal <= half {
        ideal
    } else if half > 0 {
        crate::fixed::tdiv(half, 500)
    } else {
        rho_max
    }
}

/// A liquid-like density seed, as the resolution computes it: four fifths
/// of the maximum-density estimate.
pub open spec fn liquid_seed_spec(rho_max: int) -> int {
    let s = crate::fixed::tdiv(clip(rho_max * 4), 5);
    if s > 0 {
        s
    } else {
        rho_max
    }
}

/// A vapor-like density seed: the ideal-gas estimate, kept inside the
/// physical bracket.
pub(crate) fn vapor_seed(temperature: Fx, pressure: Fx, rho_max: Fx) -> (r: Fx)
    requires
        rho_max@ > 0,
    ensures
        r@ == vapor_seed_spec(temperature@, pressure@, rho_max@),
{
    let ideal = pressure.div(temperature);
    let half = rho_max.div_int(2);
    if ideal.is_pos() && ideal.le(half) {
        ideal
    } else if half.is_pos() {
        half.div_int(500)
    } else {
        rho_max
    }
}

/// A liquid-like density seed: four fifths of the maximum-density
/// estimate.
pub(crate) fn liquid_seed(rho_max: Fx) -> (r: Fx)
    requires
        rho_max@ > 0,
    ensures
        r@ == liquid_seed_spec(rho_max@),
{
    let s = rho_max.mul_int(4).div_int(5);
    if s.is_pos() {
        s
    } else {
        rho_max
    }
}

/// The volume a resolution starts from: the requested initial volume,
/// raised to the least volume the maximum-density estimate allows.
pub open spec fn seed_volume_clamped(eos: EquationOfState, n: Seq<int>, initial: int) -> int {
    let v_min = crate::fixed::div_spec(sum_seq(n), eos.residual.spec_max_density(n));
    if initial < v_min {
        v_min
    } else {
        initial
    }
}

/// Whether the seed iterate of a volume resolution is admissible and
/// already meets its target.
pub open spec fn volume_seed_hits(
    eos: EquationOfState,
    t: int,
    n: Seq<int>,
    initial: int,
    kind: PropKind,
    target: int,
    tol: int,
) -> bool {
    &&& eos.residual.spec_max_density(n) > 0
    &&& seed_volume_clamped(eos, n, initial) > 0
    &&& within_tol(eos, t, seed_volume_clamped(eos, n, initial), n, kind, target, tol)
}

/// Resolve the volume at a given temperature so that one property meets
/// its target, by Newton steps on the volume; a seed that already meets
/// the target must succeed.
#[verifier::loop_isolation(false)]
pub fn volume_iteration(
    eos: &EquationOfState,
    temperature: Fx,
    kind: PropKind,
    target: Fx,
    moles: &Vec<Fx>,
    initial_volume: Fx,
    options: SolverOptions,
) -> (r: Result<State, EosError>)
    requires
        eos.residual.spec_compatible(moles@.len()),
        moles_ok(seq_m(moles@)),
        temperature@ > 0,
    ensures
        match r {
            Ok(st) => {
                &&& st.wf()
                &&& st.compatible(*eos)
                &&& st.temperature == temperature
                &&& st.moles@ == moles@
                &&& within_tol(
                    *eos,
                    temperature@,
                    st.volume@,
                    seq_m(st.moles@),
                    kind,
                    target@,
                    options.tolerance@,
                )
            },
            Err(e) => {
                ||| e == EosError::NotConverged(options.max_iterations)
                ||| e == EosError::DomainError
            },
        },
        (options.max_iterations > 0 && volume_seed_hits(
            *eos,
            temperature@,
            seq_m(moles@),
            initial_volume@,
            kind,
            target@,
            options.tolerance@,
        )) ==> (r is Ok),
{
    let ntot = crate::model::sum_fx(moles);
    let rho_max = eos.residual.compute_max_density(moles);
    if !rho_max.is_pos() {
        return Err(EosError::DomainError);
    }
    let v_min = ntot.div(rho_max);
    let mut volume = initial_volume;
    if volume.lt(v_min) {
        volume = v_min;
    }
    if !volume.is_pos() {
        return Err(EosError::DomainError);
    }
    let tol_abs = options.tolerance.mul(scale_ref_fx(target));
    let ghost hits = options.max_iterations > 0 && volume_seed_hits(
        *eos,
        temperature@,
        seq_m(moles@),
        initial_volume@,
        kind,
        target@,
        options.tolerance@,
    );
    let mut iter: usize = 0;
    while iter < options.max_iterations
        invariant
            volume@ > 0,
            hits ==> iter == 0 && volume@ == seed_volume_clamped(
                *eos,
                seq_m(moles@),
                initial_volume@,
            ),
        decreases options.max_iterations - iter,
    {
        let st = State {
            temperature,
            volume,
            moles: crate::state::clone_fx_vec(moles),
        };
        let (f0, _ft, fv) = st.prop_and_derivs(eos, kind);
        let f = f0.sub(target);
        if f.abs().le(tol_abs) {
            proof {
                assert forall|i: int| 0 <= i < st.moles@.len() implies (
                    #[trigger] st.moles@[i])@ >= 0 by {
                    assert(seq_m(st.moles@)[i] == st.moles@[i]@);
                    assert(seq_m(st.moles@)[i] >= 0);
                };
            }
            return Ok(st);
        }
        let mut next = volume;
        if fv.is_zero() {
            next = volume.mul_int(2);
        } else {
            let cand = volume.sub(f.div(fv));
            if !cand.is_pos() {
                next = volume.div_int(2);
            } else if cand.lt(v_min) {
                next = volume.midpoint(v_min);
            } else {
                next = cand;
            }
        }
        if !next.is_pos() {
            return Err(EosError::DomainError);
        }
        volume = next;
        iter = iter + 1;
    }
    Err(EosError::NotConverged(options.max_iterations))
}

/// Resolve the temperature at a given volume so that one property meets
/// its target, by Newton steps on the temperature; a seed that already
/// meets the target must succeed.
#[verifier::loop_isolation(false)]
pub fn temperature_iteration(
    eos: &EquationOfState,
    volume: Fx,
    kind: PropKind,
    target: Fx,
    moles: &Vec<Fx>,
    initial_temperature: Fx,
    options: SolverOptions,
) -> (r: Result<State, EosError>)
    requires
        eos.residual.spec_compatible(moles@.len()),
        moles_ok(seq_m(moles@)),
        volume@ > 0,
    ensures
        match r {
            Ok(st) => {
                &&& st.wf()
                &&& st.compatible(*eos)
                &&& st.volume == volume
                &&& st.moles@ == moles@
                &&& within_tol(
                    *eos,
                    st.temperature@,
                    volume@,
                    seq_m(st.moles@),
                    kind,
                    target@,
                    options.tolerance@,
                )
            },
            Err(e) => {
                ||| e == EosError::NotConverged(options.max_iterations)
                ||| e == EosError::DomainError
            },
        },
        (options.max_iterations > 0 && initial_temperature@ > 0 && within_tol(
            *eos,
            initial_temperature@,
            volume@,
            seq_m(moles@),
            kind,
            target@,
            options.tolerance@,
        )) ==> (r is Ok),
{
    let mut temperature = initial_temperature;
    if !temperature.is_pos() {
        return Err(EosError::DomainError);
    }
    let tol_abs = options.tolerance.mul(scale_ref_fx(target));
    let ghost hits = options.max_iterations > 0 && initial_temperature@ > 0 && within_tol(
        *eos,
        initial_temperature@,
        volume@,
        seq_m(moles@),
        kind,
        target@,
        options.tolerance@,
    );
    let mut iter: usize = 0;
    while iter < options.max_iterations
        invariant
            temperature@ > 0,
            hits ==> iter == 0 && temperature@ == initial_temperature@,
        decreases options.max_iterations - iter,
    {
        let st = State {
            temperature,
            volume,
            moles: crate::state::clone_fx_vec(moles),
        };
        let (f0, ft, _fv) = st.prop_and_derivs(eos, kind);
        let f = f0.sub(target);
        if f.abs().le(tol_abs) {
            proof {
                assert forall|i: int| 0 <= i < st.moles@.len() implies (
                    #[trigger] st.moles@[i])@ >= 0 by {
                    assert(seq_m(st.moles@)[i] == st.moles@[i]@);
                    assert(seq_m(st.moles@)[i] >= 0);
                };
            }
            return Ok(st);
        }
        let mut next = temperature;
        if ft.is_zero() {
            next = temperature.mul_int(2);
        } else {
            let cand = temperature.sub(f.div(ft));
            if !cand.is_pos() {
                next = temperature.div_int(2);
            } else {
                next = cand;
            }
        }
        if !next.is_pos() {
            return Err(EosError::DomainError);
        }
        temperature = next;
        iter = iter + 1;
    }
    Err(EosError::NotConverged(options.max_iterations))
}

/// Resolve temperature and volume jointly so that two properties meet
/// their targets, by damped two-dimensional Newton steps with exact
/// derivatives from the dual channels; a seed that already meets both
/// targets must succeed.
#[verifier::loop_isolation(false)]
pub fn tv_iteration(
    eos: &EquationOfState,
    kind1: PropKind,
    target1: Fx,
    kind2: PropKind,
    target2: Fx,
    moles: &Vec<Fx>,
    initial_temperature: Fx,
    initial_volume: Fx,
    options: SolverOptions,
) -> (r: Result<State, EosError>)
    requires
        eos.residual.spec_compatible(moles@.len()),
        moles_ok(seq_m(moles@)),
    ensures
        match r {
            Ok(st) => {
                &&& st.wf()
                &&& st.compatible(*eos)
                &&& st.moles@ == moles@
                &&& within_tol(
                    *eos,
                    st.temperature@,
                    st.volume@,
                    seq_m(st.moles@),
                    kind1,
                    target1@,
                    options.tolerance@,
                )
                &&& within_tol(
                    *eos,
                    st.temperature@,
                    st.volume@,
                    seq_m(st.moles@),
                    kind2,
                    target2@,
                    options.tolerance@,
                )
            },
            Err(e) => {
                ||| e == EosError::NotConverged(options.max_iterations)
                ||| e == EosError::DomainError
            },
        },
        (options.max_iterations > 0 && initial_temperature@ > 0 && initial_volume@ > 0
            && within_tol(
            *eos,
            initial_temperature@,
            initial_volume@,
            seq_m(moles@),
            kind1,
            target1@,
            options.tolerance@,
        ) && within_tol(
            *eos,
            initial_temperature@,
            initial_volume@,
            seq_m(moles@),
            kind2,
            target2@,
            options.tolerance@,
        )) ==> (r is Ok),
{
    let mut temperature = initial_temperature;
    let mut volume = initial_volume;
    if !temperature.is_pos() || !volume.is_pos() {
        return Err(EosError::DomainError);
    }
    let tol1 = options.tolerance.mul(scale_ref_fx(target1));
    let tol2 = options.tolerance.mul(scale_ref_fx(target2));
    let ghost hits = options.max_iterations > 0 && initial_temperature@ > 0 && initial_volume@
        > 0 && within_tol(
        *eos,
        initial_temperature@,
        initial_volume@,
        seq_m(moles@),
        kind1,
        target1@,
        options.tolerance@,
    ) && within_tol(
        *eos,
        initial_temperature@,
        initial_volume@,
        seq_m(moles@),
        kind2,
        target2@,
        options.tolerance@,
    );
    let mut iter: usize = 0;
    while iter < options.max_iterations
        invariant
            temperature@ > 0,
            volume@ > 0,
            hits ==> iter == 0 && temperature@ == initial_temperature@ && volume@
                == initial_volume@,
        decreases options.max_iterations - iter,
    {
        let st = State {
            temperature,
            volume,
            moles: crate::state::clone_fx_vec(moles),
        };
        let (f1, f1t, f1v) = st.prop_and_derivs(eos, kind1);
        let (f2, f2t, f2v) = st.prop_and_derivs(eos, kind2);
        let r1 = f1.sub(target1);
        let r2 = f2.sub(target2);
        if r1.abs().le(tol1) && r2.abs().le(tol2) {
            proof {
                assert forall|i: int| 0 <= i < st.moles@.len() implies (
                    #[trigger] st.moles@[i])@ >= 0 by {
                    assert(seq_m(st.moles@)[i] == st.moles@[i]@);
                    assert(seq_m(st.moles@)[i] >= 0);
                };
            }
            return Ok(st);
        }
        let det = f1t.mul(f2v).sub(f1v.mul(f2t));
        if det.is_zero() {
            return Err(EosError::DomainError);
        }
        let dt = r1.mul(f2v).sub(r2.mul(f1v)).div(det);
        let dv = r2.mul(f1t).sub(r1.mul(f2t)).div(det);
        let mut tn = temperature.sub(dt);
        let mut vn = volume.sub(dv);
        if !tn.is_pos() {
            tn = temperature.div_int(2);
        }
        if !vn.is_pos() {
            vn = volume.div_int(2);
        }
        if !tn.is_pos() || !vn.is_pos() {
            return Err(EosError::DomainError);
        }
        temperature = tn;
        volume = vn;
        iter = iter + 1;
    }
    Err(EosError::NotConverged(options.max_iterations))
}

/// Whether the composition-giving inputs fail the model's component-count
/// check, before anything else is considered.
pub open spec fn comp_bad(
    nc: nat,
    moles: Option<Seq<int>>,
    molefracs: Option<Seq<int>>,
    partial_density: Option<Seq<int>>,
) -> bool {
    if moles is Some {
        nc != moles->0.len()
    } else if molefracs is Some {
        nc != molefracs->0.len()
    } else if partial_density is Some {
        nc != partial_density->0.len()
    } else {
        nc != 1
    }
}

/// Whether a combination of specified variables determines a state: at
/// most one composition source, a total only where it scales one, at most
/// one volume source, and exactly as many pinned properties as unknowns
/// among temperature and volume.
pub open spec fn spec_determined(
    has_t: bool,
    has_vol: bool,
    has_rho: bool,
    has_partial: bool,
    has_total: bool,
    has_moles: bool,
    has_x: bool,
    n_props: int,
) -> bool {
    let n_comp = (if has_moles { 1int } else { 0 }) + (if has_x { 1int } else { 0 }) + (
    if has_partial {
        1int
    } else {
        0
    });
    let total_ok = !has_total || (!has_moles && !has_partial);
    let n_vsrc = (if has_vol { 1int } else { 0 }) + (if has_rho { 1int } else { 0 }) + (
    if has_partial {
        1int
    } else {
        0
    });
    let unknowns = (if has_t { 0int } else { 1 }) + (if n_vsrc >= 1 { 0int } else { 1 });
    &&& n_comp <= 1
    &&& total_ok
    &&& n_vsrc <= 1
    &&& n_props == unknowns
}

/// Each scalar of a vector multiplied by a factor.
fn scale_vec(v: &Vec<Fx>, s: Fx) -> (r: Vec<Fx>)
    ensures
        r@.len() == v@.len(),
        forall|i: int| 0 <= i < v@.len() ==> (#[trigger] r@[i])@ == mul_spec(v@[i]@, s@),
{
    let mut out: Vec<Fx> = Vec::new();
    let mut i: usize = 0;
    while i < v.len()
        invariant
            0 <= i <= v@.len(),
            out@.len() == i,
            forall|p: int| 0 <= p < i ==> (#[trigger] out@[p])@ == mul_spec(v@[p]@, s@),
        decreases v@.len() - i,
    {
        out.push(v[i].mul(s));
        i = i + 1;
    }
    out
}

/// A volume seed from the density-initialization hint.
fn seed_volume(hint: DensityInitialization, total: Fx, rho_max: Fx) -> (r: Fx) {
    match hint {
        DensityInitialization::InitialDensity(rho0) => total.div(rho0),
        DensityInitialization::Liquid => total.mul_int(5).div_int(4).div(rho_max),
        DensityInitialization::Vapor => total.mul_int(100).div(rho_max),
        DensityInitialization::Unspecified => total.mul_int(4).div(rho_max),
    }
}

impl State {
    /// Construct the unique state that satisfies an arbitrary combination
    /// of specified variables.
    ///
    /// The composition is validated first; then the specification must
    /// leave exactly as many pinned properties as unknowns among
    /// temperature and volume, else it is rejected as over- or
    /// under-determined. Whatever needed iteration is met within the
    /// solver tolerance in the returned state.
    #[verifier::loop_isolation(false)]
    #[verifier::rlimit(60)]
    pub fn new(
        eos: &EquationOfState,
        temperature: Option<Fx>,
        volume: Option<Fx>,
        density: Option<Fx>,
        partial_density: Option<&Vec<Fx>>,
        total_moles: Option<Fx>,
        moles: Option<&Vec<Fx>>,
        molefracs: Option<&Vec<Fx>>,
        pressure: Option<Fx>,
        molar_enthalpy: Option<Fx>,
        molar_entropy: Option<Fx>,
        molar_internal_energy: Option<Fx>,
        density_initialization: DensityInitialization,
        initial_temperature: Option<Fx>,
        options: SolverOptions,
    ) -> (r: Result<State, EosError>)
        requires
            eos.residual.wf(),
        ensures
            comp_bad(
                eos.residual.spec_components(),
                match moles {
                    Some(m) => Some(seq_m(m@)),
                    None => None,
                },
                match molefracs {
                    Some(m) => Some(seq_m(m@)),
                    None => None,
                },
                match partial_density {
                    Some(m) => Some(seq_m(m@)),
                    None => None,
                },
            ) ==> r == Result::<State, EosError>::Err(
                EosError::IncompatibleComponents(
                    eos.residual.n_components,
                    match moles {
                        Some(m) => m@.len() as usize,
                        None => match molefracs {
                            Some(m) => m@.len() as usize,
                            None => match partial_density {
                                Some(m) => m@.len() as usize,
                                None => 1,
                            },
                        },
                    },
                ),
            ),
            !comp_bad(
                eos.residual.spec_components(),
                match moles {
                    Some(m) => Some(seq_m(m@)),
                    None => None,
                },
                match molefracs {
                    Some(m) => Some(seq_m(m@)),
                    None => None,
                },
                match partial_density {
                    Some(m) => Some(seq_m(m@)),
                    None => None,
                },
            ) ==> (r == Result::<State, EosError>::Err(EosError::UndeterminedState)
                <==> !spec_determined(
                temperature is Some,
                volume is Some,
                density is Some,
                partial_density is Some,
                total_moles is Some,
                moles is Some,
                molefracs is Some,
                (if pressure is Some { 1int } else { 0 }) + (
                if molar_enthalpy is Some {
                    1int
                } else {
                    0
                }) + (if molar_entropy is Some { 1int } else { 0 }) + (
                if molar_internal_energy is Some {
                    1int
                } else {
                    0
                }),
            )),
            match r {
                Ok(st) => {
                    &&& st.wf()
                    &&& st.compatible(*eos)
                    &&& (temperature matches Some(t) ==> st.temperature == t)
                    &&& (volume matches Some(v) ==> st.volume == v)
                    &&& (moles matches Some(m) ==> st.moles@ == m@)
                    &&& (pressure matches Some(p) ==> within_tol(
                        *eos,
                        st.temperature@,
                        st.volume@,
                        seq_m(st.moles@),
                        PropKind::Pressure,
                        p@,
                        options.tolerance@,
                    ))
                    &&& (molar_enthalpy matches Some(h) ==> within_tol(
                        *eos,
                        st.temperature@,
                        st.volume@,
                        seq_m(st.moles@),
                        PropKind::MolarEnthalpy,
                        h@,
                        options.tolerance@,
                    ))
                    &&& (molar_entropy matches Some(sv) ==> within_tol(
                        *eos,
                        st.temperature@,
                        st.volume@,
                        seq_m(st.moles@),
                        PropKind::MolarEntropy,
                        sv@,
                        options.tolerance@,
                    ))
                    &&& (molar_internal_energy matches Some(uv) ==> within_tol(
                        *eos,
                        st.temperature@,
                        st.volume@,
                        seq_m(st.moles@),
                        PropKind::MolarInternalEnergy,
                        uv@,
                        options.tolerance@,
                    ))
                },
                Err(e) => {
                    ||| e matches EosError::IncompatibleComponents(_, _)
                    ||| e == EosError::UndeterminedState
                    ||| e == EosError::DomainError
                    ||| e == EosError::NotConverged(options.max_iterations)
                },
            },
            ({
                &&& temperature matches Some(t) && t@ > 0
                &&& volume matches Some(v) && v@ > 0
                &&& moles matches Some(m) && eos.residual.spec_components() == m@.len()
                    && moles_ok(seq_m(m@))
                &&& density is None && partial_density is None
                &&& total_moles is None && molefracs is None
                &&& pressure is None && molar_enthalpy is None
                &&& molar_entropy is None && molar_internal_energy is None
            }) ==> (r is Ok),
    {
        // Step one: the composition, validated against the model.
        let base: Vec<Fx> = match (moles, molefracs, partial_density) {
            (Some(m), _, _) => crate::model::validate_moles_with(
                eos.residual.n_components,
                Some(m),
            )?,
            (None, Some(x), _) => crate::model::validate_moles_with(
                eos.residual.n_components,
                Some(x),
            )?,
            (None, None, Some(pd)) => crate::model::validate_moles_with(
                eos.residual.n_components,
                Some(pd),
            )?,
            (None, None, None) => crate::model::validate_moles_with(
                eos.residual.n_components,
                None,
            )?,
        };
        // Step two: degrees of freedom.
        let n_props: usize = (if pressure.is_some() {
            1usize
        } else {
            0
        }) + (if molar_enthalpy.is_some() {
            1usize
        } else {
            0
        }) + (if molar_entropy.is_some() {
            1usize
        } else {
            0
        }) + (if molar_internal_energy.is_some() {
            1usize
        } else {
            0
        });
        let n_comp_src: usize = (if moles.is_some() {
            1usize
        } else {
            0
        }) + (if molefracs.is_some() {
            1usize
        } else {
            0
        }) + (if partial_density.is_some() {
            1usize
        } else {
            0
        });
        let total_ok: bool = !total_moles.is_some() || (!moles.is_some()
            && !partial_density.is_some());
        let n_vsrc: usize = (if volume.is_some() {
            1usize
        } else {
            0
        }) + (if density.is_some() {
            1usize
        } else {
            0
        }) + (if partial_density.is_some() {
            1usize
        } else {
            0
        });
        let unknowns: usize = (if temperature.is_some() {
            0usize
        } else {
            1
        }) + (if n_vsrc >= 1 {
            0usize
        } else {
            1
        });
        if !(n_comp_src <= 1 && total_ok && n_vsrc <= 1 && n_props == unknowns) {
            return Err(EosError::UndeterminedState);
        }
        // The partial-density sum, taken before the mole numbers consume
        // the validated vector.
        let pd_rho: Option<Fx> = if !moles.is_some() && !molefracs.is_some()
            && partial_density.is_some() {
            Some(crate::model::sum_fx(&base))
        } else {
            None
        };
        // The actual mole numbers: scale fractions by the total.
        let n: Vec<Fx> = if moles.is_some() {
            base
        } else if molefracs.is_some() {
            let total = match total_moles {
                Some(t) => t,
                None => Fx::one(),
            };
            scale_vec(&base, total)
        } else if partial_density.is_some() {
            let rho = match pd_rho {
                Some(r) => r,
                None => Fx::zero(),
            };
            if !rho.is_pos() {
                return Err(EosError::DomainError);
            }
            let total = match total_moles {
                Some(t) => t,
                None => Fx::one(),
            };
            let mut out: Vec<Fx> = Vec::new();
            let mut i: usize = 0;
            while i < base.len()
                invariant
                    0 <= i <= base@.len(),
                    out@.len() == i,
                decreases base@.len() - i,
            {
                out.push(base[i].div(rho).mul(total));
                i = i + 1;
            }
            out
        } else {
            match total_moles {
                Some(t) => {
                    let mut out: Vec<Fx> = Vec::new();
                    out.push(t);
                    out
                },
                None => base,
            }
        };
        if n.len() != eos.residual.n_components {
            return Err(
                EosError::IncompatibleComponents(eos.residual.n_components, n.len()),
            );
        }
        // Physical domain of the composition.
        proof {
            match moles {
                Some(m) => {
                    if moles_ok(seq_m(m@)) && n@ == m@ {
                        assert forall|p: int| 0 <= p < n@.len() implies (#[trigger] n@[p])@
                            >= 0 by {
                            assert(seq_m(m@)[p] == m@[p]@);
                            assert(seq_m(m@)[p] >= 0);
                        };
                        assert(seq_m(n@) == seq_m(m@));
                        assert(sum_seq(seq_m(n@)) > 0);
                    }
                },
                None => {},
            }
        }
        let mut i: usize = 0;
        while i < n.len()
            invariant
                0 <= i <= n@.len(),
                forall|p: int| 0 <= p < i ==> (#[trigger] n@[p])@ >= 0,
            decreases n@.len() - i,
        {
            if n[i].is_neg() {
                return Err(EosError::DomainError);
            }
            i = i + 1;
        }
        let total = crate::model::sum_fx(&n);
        if !total.is_pos() {
            return Err(EosError::DomainError);
        }
        proof {
            assert(moles_ok(seq_m(n@))) by {
                assert forall|p: int| 0 <= p < seq_m(n@).len() implies #[trigger] seq_m(n@)[p]
                    >= 0 by {
                    assert(seq_m(n@)[p] == n@[p]@);
                };
            };
        }
        // The volume, where a source gives it.
        let vol: Option<Fx> = if volume.is_some() {
            volume
        } else if density.is_some() {
            let rho = match density {
                Some(d) => d,
                None => Fx::zero(),
            };
            if !rho.is_pos() {
                return Err(EosError::DomainError);
            }
            Some(total.div(rho))
        } else if partial_density.is_some() {
            let rho = match pd_rho {
                Some(r) => r,
                None => Fx::zero(),
            };
            if !rho.is_pos() {
                return Err(EosError::DomainError);
            }
            Some(total.div(rho))
        } else {
            None
        };
        let t0 = match initial_temperature {
            Some(t) => t,
            None => Fx::from_int(298),
        };
        // Step three: dispatch on the unknowns.
        match (temperature, vol) {
            (Some(t), Some(v)) => {
                if !t.is_pos() || !v.is_pos() {
                    return Err(EosError::DomainError);
                }
                Ok(State { temperature: t, volume: v, moles: n })
            },
            (Some(t), None) => {
                if !t.is_pos() {
                    return Err(EosError::DomainError);
                }
                if pressure.is_some() {
                    let p = match pressure {
                        Some(p) => p,
                        None => Fx::zero(),
                    };
                    resolve_density(eos, t, p, &n, density_initialization, options)
                } else {
                    let (kind, target) = match (molar_enthalpy, molar_entropy,
                        molar_internal_energy) {
                        (Some(h), _, _) => (PropKind::MolarEnthalpy, h),
                        (None, Some(sv), _) => (PropKind::MolarEntropy, sv),
                        (None, None, Some(uv)) => (PropKind::MolarInternalEnergy, uv),
                        (None, None, None) => {
                            return Err(EosError::UndeterminedState);
                        },
                    };
                    let rho_max = eos.residual.compute_max_density(&n);
                    let v0 = seed_volume(density_initialization, total, rho_max);
                    volume_iteration(eos, t, kind, target, &n, v0, options)
                }
            },
            (None, Some(v)) => {
                if !v.is_pos() {
                    return Err(EosError::DomainError);
                }
                let (kind, target) = match (pressure, molar_enthalpy, molar_entropy,
                    molar_internal_energy) {
                    (Some(p), _, _, _) => (PropKind::Pressure, p),
                    (None, Some(h), _, _) => (PropKind::MolarEnthalpy, h),
                    (None, None, Some(sv), _) => (PropKind::MolarEntropy, sv),
                    (None, None, None, Some(uv)) => (PropKind::MolarInternalEnergy, uv),
                    (None, None, None, None) => {
                        return Err(EosError::UndeterminedState);
                    },
                };
                temperature_iteration(eos, v, kind, target, &n, t0, options)
            },
            (None, None) => {
                let mut picked: Vec<(PropKind, Fx)> = Vec::new();
                match pressure {
                    Some(p) => picked.push((PropKind::Pressure, p)),
                    None => {},
                }
                match molar_enthalpy {
                    Some(h) => picked.push((PropKind::MolarEnthalpy, h)),
                    None => {},
                }
                match molar_entropy {
                    Some(sv) => picked.push((PropKind::MolarEntropy, sv)),
                    None => {},
                }
                match molar_internal_energy {
                    Some(uv) => picked.push((PropKind::MolarInternalEnergy, uv)),
                    None => {},
                }
                if picked.len() != 2 {
                    return Err(EosError::UndeterminedState);
                }
                let rho_max = eos.residual.compute_max_density(&n);
                let v0 = seed_volume(density_initialization, total, rho_max);
                let (k1, g1) = picked[0];
                let (k2, g2) = picked[1];
                tv_iteration(eos, k1, g1, k2, g2, &n, t0, v0, options)
            },
        }
    }
}

} // verus!
