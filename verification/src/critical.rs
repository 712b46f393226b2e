//! Critical-point and spinodal solvers.
//!
//! A critical point of a pure or fixed-composition system is located by
//! two-dimensional Newton iteration on temperature and volume, driving the
//! first and second volume derivatives of the pressure to zero together;
//! the Jacobian comes from exact dual channels, never finite differences.
//! Spinodal states are the roots of the first volume derivative alone,
//! bracketed by a density scan and narrowed by bisection.

use vstd::prelude::*;

use crate::error::EosError;
use crate::fixed::{div_spec, mul_spec, seq_m, Fx, SCALE};
use crate::model::{sum_seq, Contributions, EquationOfState, Residual};
use crate::solver::{fx_abs, moles_ok, SolverOptions};
use crate::state::{d2p_dv2_spec, dp_dv_spec, State};

verus! {

/// The first criticality condition, made dimensionless:
/// `(dp/dV) V^2 / (n T)`.
pub open spec fn crit1_spec(eos: EquationOfState, t: int, v: int, n: Seq<int>) -> int {
    div_spec(
        mul_spec(mul_spec(dp_dv_spec(eos, t, v, n, Contributions::Total), v), v),
        mul_spec(sum_seq(n), t),
    )
}

/// The second criticality condition, made dimensionless:
/// `(d2p/dV2) V^3 / (n T)`.
pub open spec fn crit2_spec(eos: EquationOfState, t: int, v: int, n: Seq<int>) -> int {
    div_spec(
        mul_spec(mul_spec(mul_spec(d2p_dv2_spec(eos, t, v, n, Contributions::Total), v), v), v),
        mul_spec(sum_seq(n), t),
    )
}

impl State {
    /// The two dimensionless criticality conditions at this state.
    pub fn criticality_conditions(&self, eos: &EquationOfState) -> (r: (Fx, Fx))
        requires
            self.compatible(*eos),
        ensures
            r.0@ == crit1_spec(*eos, self.temperature@, self.volume@, seq_m(self.moles@)),
            r.1@ == crit2_spec(*eos, self.temperature@, self.volume@, seq_m(self.moles@)),
    {
        let which = Contributions::Total;
        let nt = self.total_moles().mul(self.temperature);
        let dpdv = self.dp_dv(eos, which);
        let d2 = self.d2p_dv2(eos, which);
        let c1 = dpdv.mul(self.volume).mul(self.volume).div(nt);
        let c2 = d2.mul(self.volume).mul(self.volume).mul(self.volume).div(nt);
        (c1, c2)
    }
}


/// The temperature a critical search starts from: the hint, or the
/// standard-condition default.
pub open spec fn crit_seed_t(initial_temperature: Option<Fx>) -> int {
    match initial_temperature {
        Some(t) => t@,
        None => crate::fixed::clip(300 * SCALE),
    }
}

/// The volume a critical search starts from: three moles' worth of the
/// maximum-density estimate.
pub open spec fn crit_seed_v(eos: EquationOfState, n: Seq<int>) -> int {
    crate::fixed::div_spec(
        crate::fixed::clip(sum_seq(n) * 3),
        eos.residual.spec_max_density(n),
    )
}

/// Whether a composition is admissible for a critical search and its seed
/// iterate already meets both criticality conditions: the least success a
/// run must turn into an Ok.
pub open spec fn crit_seed_hits(eos: EquationOfState, n: Seq<int>, t0: int, tol: int) -> bool {
    &&& crate::solver::moles_ok(n)
    &&& eos.residual.spec_max_density(n) > 0
    &&& t0 > 0
    &&& crit_seed_v(eos, n) > 0
    &&& fx_abs(crit1_spec(eos, t0, crit_seed_v(eos, n), n)) <= tol
    &&& fx_abs(crit2_spec(eos, t0, crit_seed_v(eos, n), n)) <= tol
}

/// Locate the critical point of a fixed composition: Newton iteration on
/// temperature and volume until both criticality conditions vanish within
/// the tolerance; a seed that already meets both conditions must succeed,
/// at the seed itself.
#[verifier::loop_isolation(false)]
pub fn critical_point(
    eos: &EquationOfState,
    moles: Option<&Vec<Fx>>,
    initial_temperature: Option<Fx>,
    options: SolverOptions,
) -> (r: Result<State, EosError>)
    requires
        eos.residual.wf(),
    ensures
        match r {
            Ok(st) => {
                &&& st.wf()
                &&& st.compatible(*eos)
                &&& fx_abs(crit1_spec(*eos, st.temperature@, st.volume@, seq_m(st.moles@)))
                    <= options.tolerance@
                &&& fx_abs(crit2_spec(*eos, st.temperature@, st.volume@, seq_m(st.moles@)))
                    <= options.tolerance@
            },
            Err(e) => {
                ||| e matches EosError::IncompatibleComponents(_, _)
                ||| e == EosError::DomainError
                ||| e == EosError::NotConverged(options.max_iterations)
            },
        },
        (options.max_iterations > 0 && (match moles {
            Some(m) => eos.residual.spec_components() == m@.len() && crit_seed_hits(
                *eos,
                seq_m(m@),
                crit_seed_t(initial_temperature),
                options.tolerance@,
            ),
            None => eos.residual.spec_components() == 1 && crit_seed_hits(
                *eos,
                seq![SCALE as int],
                crit_seed_t(initial_temperature),
                options.tolerance@,
            ),
        })) ==> (r matches Ok(st) && st.temperature@ == crit_seed_t(initial_temperature)
            && st.volume@ == crit_seed_v(*eos, seq_m(st.moles@)) && (moles matches Some(m)
            ==> st.moles@ == m@)),
{
    let n = crate::model::validate_moles_with(eos.residual.n_components, moles)?;
    let ghost hits = options.max_iterations > 0 && crit_seed_hits(
        *eos,
        seq_m(n@),
        crit_seed_t(initial_temperature),
        options.tolerance@,
    );
    proof {
        if moles is None {
            assert(seq_m(n@) == seq![SCALE as int]);
        }
        if crate::solver::moles_ok(seq_m(n@)) {
            assert forall|p: int| 0 <= p < n@.len() implies (#[trigger] n@[p])@ >= 0 by {
                assert(seq_m(n@)[p] == n@[p]@);
                assert(seq_m(n@)[p] >= 0);
            };
        }
    }
    let mut i: usize = 0;
    while i < n.len()
        invariant
            0 <= i <= n@.len(),
            forall|p: int| 0 <= p < i ==> (#[trigger] n@[p])@ >= 0,
        decreases n@.len() - i,
    {
        if n[i].is_neg() {
            return Err(EosError::DomainError);
        }
        i = i + 1;
    }
    let ntot = crate::model::sum_fx(&n);
    if !ntot.is_pos() {
        return Err(EosError::DomainError);
    }
    proof {
        assert(moles_ok(seq_m(n@))) by {
            assert forall|p: int| 0 <= p < seq_m(n@).len() implies #[trigger] seq_m(n@)[p]
                >= 0 by {
                assert(seq_m(n@)[p] == n@[p]@);
            };
        };
    }
    let rho_max = eos.residual.compute_max_density(&n);
    if !rho_max.is_pos() {
        return Err(EosError::DomainError);
    }
    let mut temperature = match initial_temperature {
        Some(t) => t,
        None => Fx::from_int(300),
    };
    if !temperature.is_pos() {
        return Err(EosError::DomainError);
    }
    let mut volume = ntot.mul_int(3).div(rho_max);
    if !volume.is_pos() {
        return Err(EosError::DomainError);
    }
    let mut iter: usize = 0;
    while iter < options.max_iterations
        invariant
            temperature@ > 0,
            volume@ > 0,
            hits ==> iter == 0 && temperature@ == crit_seed_t(initial_temperature) && volume@
                == crit_seed_v(*eos, seq_m(n@)),
        decreases options.max_iterations - iter,
    {
        let st = State {
            temperature,
            volume,
            moles: crate::state::clone_fx_vec(&n),
        };
        let (c1, c2) = st.criticality_conditions(eos);
        if c1.abs().le(options.tolerance) && c2.abs().le(options.tolerance) {
            proof {
                assert forall|p: int| 0 <= p < st.moles@.len() implies (
                    #[trigger] st.moles@[p])@ >= 0 by {
                    assert(seq_m(st.moles@)[p] == st.moles@[p]@);
                    assert(seq_m(st.moles@)[p] >= 0);
                };
            }
            return Ok(st);
        }
        // Raw Newton system on the unscaled conditions, with the exact
        // mixed derivatives from the dual channels.
        let a = eval_total_at(eos, temperature, volume, &n);
        let t = temperature;
        let f1 = t.mul(a.d_vv()).neg();
        let f2 = t.mul(a.d_vvv()).neg();
        let j11 = a.d_vv().add(t.mul(a.d_tvv())).neg();
        let j12 = t.mul(a.d_vvv()).neg();
        let j21 = a.d_vvv().add(t.mul(a.d_tvvv())).neg();
        let j22 = t.mul(a.d_vvvv()).neg();
        let det = j11.mul(j22).sub(j12.mul(j21));
        if det.is_zero() {
            return Err(EosError::DomainError);
        }
        let dt = f1.mul(j22).sub(f2.mul(j12)).div(det);
        let dv = f2.mul(j11).sub(f1.mul(j21)).div(det);
        let mut tn = temperature.sub(dt);
        let mut vn = volume.sub(dv);
        if !tn.is_pos() {
            tn = temperature.div_int(2);
        }
        if !vn.is_pos() {
            vn = volume.div_int(2);
        }
        if !tn.is_pos() || !vn.is_pos() {
            return Err(EosError::DomainError);
        }
        temperature = tn;
        volume = vn;
        iter = iter + 1;
    }
    Err(EosError::NotConverged(options.max_iterations))
}

/// Locate the critical point of a pure substance, seeded from an optional
/// initial temperature.
pub fn critical_point_pure(
    eos: &EquationOfState,
    initial_temperature: Option<Fx>,
    options: SolverOptions,
) -> (r: Result<State, EosError>)
    requires
        eos.residual.wf(),
    ensures
        match r {
            Ok(st) => {
                &&& st.wf()
                &&& st.compatible(*eos)
                &&& fx_abs(crit1_spec(*eos, st.temperature@, st.volume@, seq_m(st.moles@)))
                    <= options.tolerance@
                &&& fx_abs(crit2_spec(*eos, st.temperature@, st.volume@, seq_m(st.moles@)))
                    <= options.tolerance@
            },
            Err(e) => {
                ||| e matches EosError::IncompatibleComponents(_, _)
                ||| e == EosError::DomainError
                ||| e == EosError::NotConverged(options.max_iterations)
            },
        },
        (options.max_iterations > 0 && eos.residual.spec_components() == 1 && crit_seed_hits(
            *eos,
            seq![SCALE as int],
            crit_seed_t(initial_temperature),
            options.tolerance@,
        )) ==> (r matches Ok(st) && st.temperature@ == crit_seed_t(initial_temperature)
            && st.volume@ == crit_seed_v(*eos, seq_m(st.moles@))),
{
    critical_point(eos, None, initial_temperature, options)
}

/// The total dual evaluation at explicit coordinates.
fn eval_total_at(eos: &EquationOfState, t: Fx, v: Fx, n: &Vec<Fx>) -> (r: crate::taylor::Td)
    requires
        eos.residual.spec_compatible(n@.len()),
    ensures
        r@ == crate::state::props_td(*eos, t@, v@, seq_m(n@), Contributions::Total),
{
    let hd = crate::model::StateHD::new(t, v, crate::state::clone_fx_vec(n));
    eos.evaluate(&hd, Contributions::Total)
}

/// A state at a trial density of a fixed composition.
fn state_at_density(temperature: Fx, rho: Fx, ntot: Fx, n: &Vec<Fx>) -> (r: State)
    requires
        rho@ != 0,
    ensures
        r.temperature == temperature,
        r.moles@ == n@,
        r.volume@ == div_spec(ntot@, rho@),
{
    State {
        temperature,
        volume: ntot.div(rho),
        moles: crate::state::clone_fx_vec(n),
    }
}

/// The first density a spinodal branch scan examines.
pub open spec fn branch_seed_rho(rho_max: int, from_dense: bool) -> int {
    if from_dense {
        crate::fixed::tdiv(crate::fixed::clip(rho_max * 63), 64)
    } else {
        crate::fixed::tdiv(rho_max, 64)
    }
}

/// Whether a spinodal branch's first scan point is admissible and already
/// satisfies the condition: the least success a run must turn into an Ok.
pub open spec fn branch_seed_hits(
    eos: EquationOfState,
    t: int,
    n: Seq<int>,
    rho_max: int,
    from_dense: bool,
    tol: int,
) -> bool {
    let rho = branch_seed_rho(rho_max, from_dense);
    let vol = crate::fixed::div_spec(sum_seq(n), rho);
    &&& rho > 0
    &&& vol > 0
    &&& fx_abs(crit1_spec(eos, t, vol, n)) <= tol
}

/// Whether both spinodal branch seeds of an admissible composition
/// already satisfy the condition, with the dilute seed no denser than the
/// dense one.
pub open spec fn spinodal_seeds_hit(eos: EquationOfState, t: int, n: Seq<int>, tol: int) -> bool {
    let rho_max = eos.residual.spec_max_density(n);
    &&& crate::solver::moles_ok(n)
    &&& rho_max > 0
    &&& branch_seed_hits(eos, t, n, rho_max, false, tol)
    &&& branch_seed_hits(eos, t, n, rho_max, true, tol)
    &&& crate::fixed::div_spec(sum_seq(n), branch_seed_rho(rho_max, false)) >= crate::fixed::div_spec(
        sum_seq(n),
        branch_seed_rho(rho_max, true),
    )
}

/// Locate the two spinodal states of a composition at a temperature: the
/// roots of the first volume derivative of the pressure, on the
/// low-density and the high-density branch. Each returned state meets its
/// condition within the tolerance, and the low-density state is listed
/// first with the larger volume; a pair of grazing branch seeds must
/// succeed.
#[verifier::loop_isolation(false)]
pub fn spinodal(
    eos: &EquationOfState,
    temperature: Fx,
    moles: Option<&Vec<Fx>>,
    options: SolverOptions,
) -> (r: Result<(State, State), EosError>)
    requires
        eos.residual.wf(),
    ensures
        match r {
            Ok((s1, s2)) => {
                &&& s1.wf()
                &&& s2.wf()
                &&& s1.compatible(*eos)
                &&& s2.compatible(*eos)
                &&& s1.temperature == temperature
                &&& s2.temperature == temperature
                &&& fx_abs(crit1_spec(*eos, s1.temperature@, s1.volume@, seq_m(s1.moles@)))
                    <= options.tolerance@
                &&& fx_abs(crit1_spec(*eos, s2.temperature@, s2.volume@, seq_m(s2.moles@)))
                    <= options.tolerance@
                &&& s1.volume@ >= s2.volume@
            },
            Err(e) => {
                ||| e matches EosError::IncompatibleComponents(_, _)
                ||| e == EosError::DomainError
                ||| e == EosError::NotConverged(options.max_iterations)
            },
        },
        (temperature@ > 0 && (match moles {
            Some(m) => eos.residual.spec_components() == m@.len() && spinodal_seeds_hit(
                *eos,
                temperature@,
                seq_m(m@),
                options.tolerance@,
            ),
            None => eos.residual.spec_components() == 1 && spinodal_seeds_hit(
                *eos,
                temperature@,
                seq![SCALE as int],
                options.tolerance@,
            ),
        })) ==> (r is Ok),
{
    if !temperature.is_pos() {
        return Err(EosError::DomainError);
    }
    let n = crate::model::validate_moles_with(eos.residual.n_components, moles)?;
    let ghost hits = spinodal_seeds_hit(*eos, temperature@, seq_m(n@), options.tolerance@);
    proof {
        if moles is None {
            assert(seq_m(n@) == seq![SCALE as int]);
        }
        if crate::solver::moles_ok(seq_m(n@)) {
            assert forall|p: int| 0 <= p < n@.len() implies (#[trigger] n@[p])@ >= 0 by {
                assert(seq_m(n@)[p] == n@[p]@);
                assert(seq_m(n@)[p] >= 0);
            };
        }
    }
    let mut i: usize = 0;
    while i < n.len()
        invariant
            0 <= i <= n@.len(),
            forall|p: int| 0 <= p < i ==> (#[trigger] n@[p])@ >= 0,
        decreases n@.len() - i,
    {
        if n[i].is_neg() {
            return Err(EosError::DomainError);
        }
        i = i + 1;
    }
    let ntot = crate::model::sum_fx(&n);
    if !ntot.is_pos() {
        return Err(EosError::DomainError);
    }
    proof {
        assert(moles_ok(seq_m(n@))) by {
            assert forall|p: int| 0 <= p < seq_m(n@).len() implies #[trigger] seq_m(n@)[p]
                >= 0 by {
                assert(seq_m(n@)[p] == n@[p]@);
            };
        };
    }
    let rho_max = eos.residual.compute_max_density(&n);
    if !rho_max.is_pos() {
        return Err(EosError::DomainError);
    }
    // Bracket each branch by a density scan: the low branch from the
    // dilute side up, the high branch from the dense side down.
    let low = spinodal_branch(eos, temperature, &n, ntot, rho_max, false, options)?;
    let high = spinodal_branch(eos, temperature, &n, ntot, rho_max, true, options)?;
    if low.volume.lt(high.volume) {
        return Err(EosError::DomainError);
    }
    Ok((low, high))
}

/// One spinodal branch: a grazing first scan point succeeds at once;
/// otherwise scan for a sign change of the first criticality condition,
/// then bisect until it vanishes within the tolerance.
#[verifier::loop_isolation(false)]
fn spinodal_branch(
    eos: &EquationOfState,
    temperature: Fx,
    n: &Vec<Fx>,
    ntot: Fx,
    rho_max: Fx,
    from_dense: bool,
    options: SolverOptions,
) -> (r: Result<State, EosError>)
    requires
        eos.residual.spec_compatible(n@.len()),
        moles_ok(seq_m(n@)),
        temperature@ > 0,
        ntot@ == sum_seq(seq_m(n@)),
        ntot@ > 0,
        rho_max@ > 0,
    ensures
        match r {
            Ok(st) => {
                &&& st.wf()
                &&& st.compatible(*eos)
                &&& st.temperature == temperature
                &&& st.moles@ == n@
                &&& fx_abs(crit1_spec(*eos, st.temperature@, st.volume@, seq_m(st.moles@)))
                    <= options.tolerance@
            },
            Err(e) => {
                ||| e == EosError::DomainError
                ||| e == EosError::NotConverged(options.max_iterations)
            },
        },
        branch_seed_hits(*eos, temperature@, seq_m(n@), rho_max@, from_dense, options.tolerance@)
            ==> (r matches Ok(st) && st.volume@ == crate::fixed::div_spec(
            sum_seq(seq_m(n@)),
            branch_seed_rho(rho_max@, from_dense),
        )),
{
    let ghost hits = branch_seed_hits(
        *eos,
        temperature@,
        seq_m(n@),
        rho_max@,
        from_dense,
        options.tolerance@,
    );
    let steps: usize = 64;
    let mut k: usize = 1;
    let mut prev: Fx = if from_dense {
        rho_max.mul_int(63).div_int(64)
    } else {
        rho_max.div_int(64)
    };
    if !prev.is_pos() {
        return Err(EosError::DomainError);
    }
    // A grazing start: the first scan point may already satisfy the
    // condition.
    let s0 = state_at_density(temperature, prev, ntot, n);
    if !s0.volume.is_pos() {
        return Err(EosError::DomainError);
    }
    let (c0, _d0) = s0.criticality_conditions(eos);
    if c0.abs().le(options.tolerance) {
        proof {
            assert forall|p: int| 0 <= p < s0.moles@.len() implies (#[trigger] s0.moles@[p])@
                >= 0 by {
                assert(seq_m(s0.moles@)[p] == s0.moles@[p]@);
                assert(seq_m(s0.moles@)[p] >= 0);
            };
        }
        return Ok(s0);
    }
    let mut lo: Fx = prev;
    let mut hi: Fx = prev;
    let mut found: bool = false;
    while k < steps
        invariant
            1 <= k <= steps,
            prev@ > 0,
            found ==> lo@ > 0 && hi@ > 0,
            !hits,
        decreases steps - k,
    {
        let rho: Fx = if from_dense {
            rho_max.mul_int((steps - k) as i64).div_int(steps as i64)
        } else {
            rho_max.mul_int(k as i64).div_int(steps as i64)
        };
        if !rho.is_pos() {
            k = k + 1;
            continue;
        }
        let sp = state_at_density(temperature, prev, ntot, n);
        let sc = state_at_density(temperature, rho, ntot, n);
        if !sp.volume.is_pos() || !sc.volume.is_pos() {
            return Err(EosError::DomainError);
        }
        let (c_prev, _d1) = sp.criticality_conditions(eos);
        let (c_cur, _d2) = sc.criticality_conditions(eos);
        if c_prev.is_neg() != c_cur.is_neg() {
            lo = prev;
            hi = rho;
            found = true;
            break;
        }
        prev = rho;
        k = k + 1;
    }
    if !found {
        return Err(EosError::DomainError);
    }
    // Bisection on the density between the bracket ends.
    let mut a = lo;
    let mut b = hi;
    let mut iter: usize = 0;
    while iter < options.max_iterations
        invariant
            a@ > 0,
            b@ > 0,
            !hits,
        decreases options.max_iterations - iter,
    {
        let mid = a.midpoint(b);
        if !mid.is_pos() {
            return Err(EosError::DomainError);
        }
        let st = state_at_density(temperature, mid, ntot, n);
        if !st.volume.is_pos() {
            return Err(EosError::DomainError);
        }
        let (c_mid, _d) = st.criticality_conditions(eos);
        if c_mid.abs().le(options.tolerance) {
            proof {
                assert forall|p: int| 0 <= p < st.moles@.len() implies (
                    #[trigger] st.moles@[p])@ >= 0 by {
                    assert(seq_m(st.moles@)[p] == st.moles@[p]@);
                    assert(seq_m(st.moles@)[p] >= 0);
                };
            }
            return Ok(st);
        }
        let sa = state_at_density(temperature, a, ntot, n);
        if !sa.volume.is_pos() {
            return Err(EosError::DomainError);
        }
        let (c_a, _da) = sa.criticality_conditions(eos);
        if c_a.is_neg() != c_mid.is_neg() {
            b = mid;
        } else {
            a = mid;
        }
        iter = iter + 1;
    }
    Err(EosError::NotConverged(options.max_iterations))
}

/// What a binary critical-point search holds fixed.
#[derive(Clone, Copy, PartialEq, Eq, Structural, Debug)]
pub enum TemperatureOrPressure {
    /// The critical temperature is prescribed.
    Temperature(Fx),
    /// The critical pressure is prescribed.
    Pressure(Fx),
}

/// The prescribed quantity evaluated at a critical state.
pub open spec fn tp_value_spec(eos: EquationOfState, st: State, spec_kind: TemperatureOrPressure)
    -> int {
    match spec_kind {
        TemperatureOrPressure::Temperature(_) => st.temperature@,
        TemperatureOrPressure::Pressure(_) => crate::state::pressure_spec(
            eos,
            st.temperature@,
            st.volume@,
            seq_m(st.moles@),
            Contributions::Total,
        ),
    }
}

/// The prescribed target value.
pub open spec fn tp_target_spec(spec_kind: TemperatureOrPressure) -> int {
    match spec_kind {
        TemperatureOrPressure::Temperature(t) => t@,
        TemperatureOrPressure::Pressure(p) => p@,
    }
}

/// The mole fraction a binary critical search examines first: the hint,
/// or one sixteenth.
pub open spec fn binary_x0(initial_molefracs: Option<Fx>) -> int {
    match initial_molefracs {
        Some(x) => x@,
        None => 0x1000_0000,
    }
}

/// The binary composition of a mole fraction and its complement.
pub open spec fn binary_n(x: int) -> Seq<int> {
    seq![x, crate::fixed::sub_spec(SCALE as int, x)]
}

/// The prescribed quantity at the pinned seed state of a composition.
pub open spec fn binary_seed_value(
    eos: EquationOfState,
    n: Seq<int>,
    t0: int,
    spec_kind: TemperatureOrPressure,
) -> int {
    match spec_kind {
        TemperatureOrPressure::Temperature(_) => t0,
        TemperatureOrPressure::Pressure(_) => crate::state::pressure_spec(
            eos,
            t0,
            crit_seed_v(eos, n),
            n,
            Contributions::Total,
        ),
    }
}

/// Locate the critical point of a binary system at a prescribed
/// temperature or pressure, varying the composition: the critical locus is
/// traced by the fixed-composition solver while the mole fraction is
/// bracketed and bisected until the prescribed quantity is met; a first
/// composition whose pinned seed state meets every condition must
/// succeed.
#[verifier::loop_isolation(false)]
pub fn critical_point_binary(
    eos: &EquationOfState,
    temperature_or_pressure: TemperatureOrPressure,
    initial_temperature: Option<Fx>,
    initial_molefracs: Option<Fx>,
    options: SolverOptions,
) -> (r: Result<State, EosError>)
    requires
        eos.residual.wf(),
        eos.residual.spec_components() == 2,
    ensures
        match r {
            Ok(st) => {
                &&& st.wf()
                &&& st.compatible(*eos)
                &&& fx_abs(crit1_spec(*eos, st.temperature@, st.volume@, seq_m(st.moles@)))
                    <= options.tolerance@
                &&& fx_abs(crit2_spec(*eos, st.temperature@, st.volume@, seq_m(st.moles@)))
                    <= options.tolerance@
                &&& fx_abs(
                    crate::fixed::sub_spec(
                        tp_value_spec(*eos, st, temperature_or_pressure),
                        tp_target_spec(temperature_or_pressure),
                    ),
                ) <= mul_spec(
                    options.tolerance@,
                    crate::solver::scale_ref(tp_target_spec(temperature_or_pressure)),
                )
            },
            Err(e) => {
                ||| e matches EosError::IncompatibleComponents(_, _)
                ||| e == EosError::DomainError
                ||| e == EosError::NotConverged(options.max_iterations)
            },
        },
        (options.max_iterations > 0 && 0 < binary_x0(initial_molefracs) < SCALE
            && crit_seed_hits(
            *eos,
            binary_n(binary_x0(initial_molefracs)),
            crit_seed_t(initial_temperature),
            options.tolerance@,
        ) && fx_abs(
            crate::fixed::sub_spec(
                binary_seed_value(
                    *eos,
                    binary_n(binary_x0(initial_molefracs)),
                    crit_seed_t(initial_temperature),
                    temperature_or_pressure,
                ),
                tp_target_spec(temperature_or_pressure),
            ),
        ) <= mul_spec(
            options.tolerance@,
            crate::solver::scale_ref(tp_target_spec(temperature_or_pressure)),
        )) ==> (r is Ok),
{
    let ghost bhits = options.max_iterations > 0 && 0 < binary_x0(initial_molefracs) < SCALE
        && crit_seed_hits(
        *eos,
        binary_n(binary_x0(initial_molefracs)),
        crit_seed_t(initial_temperature),
        options.tolerance@,
    ) && fx_abs(
        crate::fixed::sub_spec(
            binary_seed_value(
                *eos,
                binary_n(binary_x0(initial_molefracs)),
                crit_seed_t(initial_temperature),
                temperature_or_pressure,
            ),
            tp_target_spec(temperature_or_pressure),
        ),
    ) <= mul_spec(
        options.tolerance@,
        crate::solver::scale_ref(tp_target_spec(temperature_or_pressure)),
    );
    let target = match temperature_or_pressure {
        TemperatureOrPressure::Temperature(t) => t,
        TemperatureOrPressure::Pressure(p) => p,
    };
    let tol_abs = options.tolerance.mul(crate::solver::scale_ref_fx(target));
    let t_seed = initial_temperature;
    // Residual of the prescribed quantity along the critical locus.
    // Scan the composition grid for a bracket, keeping the best point.
    let mut lo = Fx::zero();
    let mut hi = Fx::zero();
    let mut g_lo = Fx::zero();
    let mut found: bool = false;
    let mut k: usize = 0;
    let first = initial_molefracs;
    while k < 15
        invariant
            tol_abs@ == mul_spec(
                options.tolerance@,
                crate::solver::scale_ref(tp_target_spec(temperature_or_pressure)),
            ),
            found ==> 0 < lo@ && lo@ < SCALE,
            0 <= k <= 15,
            bhits ==> k == 0,
        decreases 16 - k,
    {
        let x: Fx = if k == 0 {
            match first {
                Some(x0) => x0,
                None => Fx { m: 0x1000_0000 },
            }
        } else {
            Fx { m: (k as i64) * 0x1000_0000 }
        };
        if !x.is_pos() || !x.lt(Fx::one()) {
            k = k + 1;
            continue ;
        }
        match crit_residual(eos, x, temperature_or_pressure, t_seed, options) {
            Ok((st, g)) => {
                if g.abs().le(tol_abs) {
                    return Ok(st);
                }
                if found && g_lo.is_neg() != g.is_neg() {
                    hi = x;
                    break ;
                }
                lo = x;
                g_lo = g;
                found = true;
            },
            Err(_) => {},
        }
        k = k + 1;
    }
    if !found || !hi.is_pos() || !hi.lt(Fx::one()) {
        return Err(EosError::DomainError);
    }
    // Bisect the bracket on the mole fraction.
    let mut a = lo;
    let mut b = hi;
    let mut g_a = g_lo;
    let mut iter: usize = 0;
    while iter < options.max_iterations
        invariant
            tol_abs@ == mul_spec(
                options.tolerance@,
                crate::solver::scale_ref(tp_target_spec(temperature_or_pressure)),
            ),
            0 < a@ && a@ < SCALE,
            0 < b@ && b@ < SCALE,
            !bhits,
        decreases options.max_iterations - iter,
    {
        let mid = a.midpoint(b);
        if !mid.is_pos() || !mid.lt(Fx::one()) {
            return Err(EosError::DomainError);
        }
        match crit_residual(eos, mid, temperature_or_pressure, t_seed, options) {
            Ok((st, g)) => {
                if g.abs().le(tol_abs) {
                    return Ok(st);
                }
                if g_a.is_neg() != g.is_neg() {
                    b = mid;
                } else {
                    a = mid;
                    g_a = g;
                }
            },
            Err(e) => {
                return Err(
                    match e {
                        EosError::NotConverged(_) => EosError::NotConverged(
                            options.max_iterations,
                        ),
                        _ => EosError::DomainError,
                    },
                );
            },
        }
        iter = iter + 1;
    }
    Err(EosError::NotConverged(options.max_iterations))
}

/// The critical state of the binary composition `[x, 1 - x]` with the
/// residual of the prescribed quantity against its target.
fn crit_residual(
    eos: &EquationOfState,
    x: Fx,
    spec_kind: TemperatureOrPressure,
    t_seed: Option<Fx>,
    options: SolverOptions,
) -> (r: Result<(State, Fx), EosError>)
    requires
        eos.residual.wf(),
        eos.residual.spec_components() == 2,
        0 < x@ < SCALE,
    ensures
        match r {
            Ok((st, g)) => {
                &&& st.wf()
                &&& st.compatible(*eos)
                &&& fx_abs(crit1_spec(*eos, st.temperature@, st.volume@, seq_m(st.moles@)))
                    <= options.tolerance@
                &&& fx_abs(crit2_spec(*eos, st.temperature@, st.volume@, seq_m(st.moles@)))
                    <= options.tolerance@
                &&& g@ == crate::fixed::sub_spec(
                    tp_value_spec(*eos, st, spec_kind),
                    tp_target_spec(spec_kind),
                )
            },
            Err(e) => {
                ||| e matches EosError::IncompatibleComponents(_, _)
                ||| e == EosError::DomainError
                ||| e == EosError::NotConverged(options.max_iterations)
            },
        },
        (options.max_iterations > 0 && crit_seed_hits(
            *eos,
            binary_n(x@),
            crit_seed_t(t_seed),
            options.tolerance@,
        )) ==> (r matches Ok(p) && p.0.temperature@ == crit_seed_t(t_seed) && p.0.volume@
            == crit_seed_v(*eos, binary_n(x@)) && seq_m(p.0.moles@) == binary_n(x@)),
{
    let moles: Vec<Fx> = vec![x, Fx::one().sub(x)];
    proof {
        assert(seq_m(moles@) =~= binary_n(x@));
    }
    let st = critical_point(eos, Some(&moles), t_seed, options)?;
    let g = match spec_kind {
        TemperatureOrPressure::Temperature(t) => st.temperature.sub(t),
        TemperatureOrPressure::Pressure(p) => {
            st.pressure(eos, Contributions::Total).sub(p)
        },
    };
    Ok((st, g))
}

} // verus!
