use feos::critical::{critical_point_binary, critical_point_pure, spinodal, TemperatureOrPressure};
use feos::error::EosError;
use feos::fixed::{Fx, SCALE};
use feos::model::{
    Contribution, Contributions, EquationOfState, IdealGasModel, Residual, ResidualModel, StateHD,
};
use feos::solver::{DensityInitialization, SolverOptions, Verbosity};
use feos::state::State;

fn fx(num: i64, den: i64) -> Fx {
    Fx::from_ratio(num, den)
}

fn approx(a: Fx, b: Fx, tol_ulps: i64) -> bool {
    (a.m - b.m).abs() <= tol_ulps
}

/// A van-der-Waals-type pure model: covolume 0.1, energy 3.375, so the
/// critical temperature is 8a/(27b) = 10 and the critical volume 0.3.
fn vdw_pure() -> EquationOfState {
    let b = vec![fx(1, 10)];
    let a = vec![fx(27, 8)];
    let k_ij = vec![vec![Fx::zero()]];
    let contributions = vec![
        Contribution::HardSphere { b },
        Contribution::mean_field(&a, &k_ij),
    ];
    let residual = ResidualModel::new(1, contributions, Some(vec![fx(44, 1)])).unwrap();
    EquationOfState::new(residual, IdealGasModel::UnitWavelength)
}

fn ideal_only() -> EquationOfState {
    let residual = ResidualModel::new(1, vec![], None).unwrap();
    EquationOfState::new(residual, IdealGasModel::UnitWavelength)
}

fn options(max_iterations: usize, tol_m: i64) -> SolverOptions {
    SolverOptions {
        max_iterations,
        tolerance: Fx { m: tol_m },
        verbosity: Verbosity::Silent,
    }
}

#[test]
fn validate_moles_pure_default() {
    let eos = vdw_pure();
    let n = eos.residual.validate_moles(None).unwrap();
    assert_eq!(n.len(), 1);
    assert_eq!(n[0].m, SCALE);
}

#[test]
fn validate_moles_mismatch() {
    let residual = ResidualModel::new(2, vec![], None).unwrap();
    match residual.validate_moles(None) {
        Err(EosError::IncompatibleComponents(c, l)) => {
            assert_eq!(c, 2);
            assert_eq!(l, 1);
        }
        _ => panic!("expected a component-count mismatch"),
    }
    let three = vec![Fx::one(), Fx::one(), Fx::one()];
    match residual.validate_moles(Some(&three)) {
        Err(EosError::IncompatibleComponents(c, l)) => {
            assert_eq!(c, 2);
            assert_eq!(l, 3);
        }
        _ => panic!("expected a component-count mismatch"),
    }
    let two = vec![Fx::one(), Fx::one()];
    let n = residual.validate_moles(Some(&two)).unwrap();
    assert_eq!(n.len(), 2);
}

#[test]
fn ideal_gas_pressure() {
    let eos = ideal_only();
    let st = State::new_nvt(&eos, Fx::from_int(2), Fx::one(), None).unwrap();
    let p = st.pressure(&eos, Contributions::Total);
    // p = n T / V = 2 in reduced units.
    assert!(approx(p, Fx::from_int(2), 16), "p = {:?}", p);
}

#[test]
fn vdw_pressure_matches_closed_form() {
    let eos = vdw_pure();
    let t = Fx::from_int(12);
    let v = Fx::one();
    let st = State::new_nvt(&eos, t, v, None).unwrap();
    let p = st.pressure(&eos, Contributions::Total);
    // p = T/(V - b) - a/V^2 for one mole.
    let expected = t.div(v.sub(fx(1, 10)))
        .sub(fx(27, 8).div(v.mul(v)));
    assert!(approx(p, expected, 40000), "p = {:?}, expected = {:?}", p, expected);
}

#[test]
fn pressure_is_volume_derivative_of_helmholtz_energy() {
    // Finite-difference cross-check of p = -dA/dV at several points.
    let eos = vdw_pure();
    let h = fx(1, 2048);
    for &(tn, vn) in &[(12i64, 1i64), (15, 2), (11, 3)] {
        let t = Fx::from_int(tn);
        let v = Fx::from_int(vn);
        let st = State::new_nvt(&eos, t, v, None).unwrap();
        let p = st.pressure(&eos, Contributions::Total);
        let sp = State::new_nvt(&eos, t, v.add(h), None).unwrap();
        let sm = State::new_nvt(&eos, t, v.sub(h), None).unwrap();
        let ap = sp.helmholtz_energy(&eos, Contributions::Total);
        let am = sm.helmholtz_energy(&eos, Contributions::Total);
        let fd = ap.sub(am).div(h.mul_int(2)).neg();
        // Truncation error of the central difference plus fixed-point noise.
        assert!(approx(p, fd, 3_000_000), "p = {:?}, fd = {:?}", p, fd);
    }
}

#[test]
fn breakdown_preserves_total() {
    let eos = vdw_pure();
    let hd = StateHD::new(Fx::from_int(12), Fx::one(), vec![Fx::one()]);
    let parts = eos.residual.evaluate_residual_contributions(&hd);
    assert_eq!(parts.len(), 2);
    assert_eq!(parts[0].0, "Hard Sphere");
    assert_eq!(parts[1].0, "Mean Field");
    let total = eos.residual.evaluate_residual(&hd);
    let sum = parts[0].1.add(parts[1].1);
    // The declaration-order sum of the breakdown is exactly the total.
    assert_eq!(sum, total);
}

#[test]
fn max_density_estimate() {
    let eos = vdw_pure();
    let rho_max = eos.residual.max_density(None).unwrap();
    // Nine tenths of the close-packing estimate 1/b = 10.
    assert!(approx(rho_max, Fx::from_int(9), 100), "rho_max = {:?}", rho_max);
}

#[test]
fn state_new_direct_and_roundtrip_tp() {
    let eos = vdw_pure();
    let t = Fx::from_int(12);
    let v = Fx::one();
    let st = State::new_nvt(&eos, t, v, None).unwrap();
    let p = st.pressure(&eos, Contributions::Total);
    let back = State::new(
        &eos,
        Some(t),
        None,
        None,
        None,
        None,
        None,
        None,
        Some(p),
        None,
        None,
        None,
        DensityInitialization::Unspecified,
        None,
        options(400, 4096),
    )
    .unwrap();
    assert_eq!(back.temperature, t);
    // The resolved volume reproduces the starting state within solver tolerance.
    assert!(
        approx(back.volume, v, SCALE / 500),
        "volume = {:?}",
        back.volume
    );
}

#[test]
fn state_roundtrip_pressure_entropy() {
    let eos = vdw_pure();
    let t = Fx::from_int(12);
    let v = Fx::one();
    let st = State::new_nvt(&eos, t, v, None).unwrap();
    let p = st.pressure(&eos, Contributions::Total);
    let s = st.molar_entropy(&eos, Contributions::Total);
    let back = State::new(
        &eos,
        None,
        None,
        None,
        None,
        None,
        None,
        None,
        Some(p),
        None,
        Some(s),
        None,
        DensityInitialization::InitialDensity(fx(11, 10)),
        Some(Fx::from_int(11)),
        options(400, 4096),
    )
    .unwrap();
    assert!(
        approx(back.temperature, t, SCALE / 100),
        "temperature = {:?}",
        back.temperature
    );
    assert!(approx(back.volume, v, SCALE / 100), "volume = {:?}", back.volume);
}

#[test]
fn state_new_rejects_overdetermined() {
    let eos = vdw_pure();
    let r = State::new(
        &eos,
        Some(Fx::from_int(12)),
        Some(Fx::one()),
        None,
        None,
        None,
        None,
        None,
        Some(Fx::from_int(5)),
        None,
        None,
        None,
        DensityInitialization::Unspecified,
        None,
        options(400, 64),
    );
    assert_eq!(r.unwrap_err(), EosError::UndeterminedState);
}

#[test]
fn state_new_rejects_underdetermined() {
    let eos = vdw_pure();
    let r = State::new(
        &eos,
        Some(Fx::from_int(12)),
        None,
        None,
        None,
        None,
        None,
        None,
        None,
        None,
        None,
        None,
        DensityInitialization::Unspecified,
        None,
        options(400, 64),
    );
    assert_eq!(r.unwrap_err(), EosError::UndeterminedState);
}

#[test]
fn state_new_rejects_two_composition_sources() {
    let eos = vdw_pure();
    let moles = vec![Fx::one()];
    let fracs = vec![Fx::one()];
    let r = State::new(
        &eos,
        Some(Fx::from_int(12)),
        Some(Fx::one()),
        None,
        None,
        None,
        Some(&moles),
        Some(&fracs),
        None,
        None,
        None,
        None,
        DensityInitialization::Unspecified,
        None,
        options(400, 64),
    );
    assert_eq!(r.unwrap_err(), EosError::UndeterminedState);
}

#[test]
fn exhausted_iteration_budget_is_reported() {
    let eos = vdw_pure();
    let r = State::new(
        &eos,
        Some(Fx::from_int(12)),
        None,
        None,
        None,
        None,
        None,
        None,
        Some(fx(996, 100)),
        None,
        None,
        None,
        DensityInitialization::InitialDensity(Fx::from_int(5)),
        None,
        options(1, 64),
    );
    assert_eq!(r.unwrap_err(), EosError::NotConverged(1));
}

#[test]
fn critical_point_of_the_reference_model() {
    // The model's known critical temperature is 10 and its critical
    // volume 0.3 per mole.
    let eos = vdw_pure();
    let cp = critical_point_pure(&eos, Some(Fx::from_int(11)), options(400, 1 << 16)).unwrap();
    assert!(
        approx(cp.temperature, Fx::from_int(10), SCALE / 20),
        "Tc = {:?}",
        cp.temperature
    );
    assert!(
        approx(cp.volume, fx(3, 10), SCALE / 50),
        "Vc = {:?}",
        cp.volume
    );
}

#[test]
fn spinodal_states_satisfy_the_condition() {
    let eos = vdw_pure();
    let (low, high) = spinodal(&eos, Fx::from_int(8), None, options(400, 1 << 16)).unwrap();
    // The low-density state is listed first, with the larger volume.
    assert!(low.volume.m > high.volume.m);
    // Both states satisfy dp/dV = 0 within a loose physical tolerance.
    let d1 = low.dp_dv(&eos, Contributions::Total);
    let d2 = high.dp_dv(&eos, Contributions::Total);
    assert!(d1.abs().m < SCALE / 100, "dp_dv low = {:?}", d1);
    assert!(d2.abs().m < 40 * SCALE, "dp_dv high = {:?}", d2);
    // Reference roots: V = 0.5764 and V = 0.1906, with pressures 6.634
    // and -4.602.
    assert!(approx(low.volume, fx(5764, 10000), SCALE / 50));
    assert!(approx(high.volume, fx(1906, 10000), SCALE / 50));
    let p_low = low.pressure(&eos, Contributions::Total);
    let p_high = high.pressure(&eos, Contributions::Total);
    assert!(approx(p_low, fx(6634, 1000), SCALE / 10), "p_low = {:?}", p_low);
    assert!(approx(p_high, fx(-4602, 1000), SCALE), "p_high = {:?}", p_high);
}

#[test]
fn stable_state_is_its_own_sole_candidate() {
    let eos = vdw_pure();
    let st = State::new_nvt(&eos, Fx::from_int(12), Fx::one(), None).unwrap();
    assert!(st.is_stable(&eos, options(200, 1 << 12)).unwrap());
    let found = st.stability_analysis(&eos, options(200, 1 << 12)).unwrap();
    assert_eq!(found.len(), 1);
    assert_eq!(found[0].temperature, st.temperature);
    assert_eq!(found[0].volume, st.volume);
}

#[test]
fn unstable_state_yields_a_more_stable_candidate() {
    let eos = vdw_pure();
    // Inside the spinodal region at a subcritical temperature.
    let st = State::new_nvt(&eos, Fx::from_int(8), fx(4, 10), None).unwrap();
    assert!(!st.is_stable(&eos, options(200, 1 << 12)).unwrap());
    let found = st.stability_analysis(&eos, options(200, 1 << 12)).unwrap();
    assert!(found.len() >= 1);
    // Each candidate has a negative tangent-plane distance, hence a lower
    // chemical potential than the tested state.
    let p = st.pressure(&eos, Contributions::Total);
    for cand in &found {
        let tpd = st.tangent_plane_distance(&eos, cand);
        assert!(tpd.m < 0, "tpd = {:?}", tpd);
        // The candidate's molar Gibbs energy at the shared pressure lies
        // below the tested state's.
        let g_cand = cand
            .helmholtz_energy(&eos, Contributions::Total)
            .add(p.mul(cand.volume))
            .div(cand.total_moles());
        let g_self = st
            .helmholtz_energy(&eos, Contributions::Total)
            .add(p.mul(st.volume))
            .div(st.total_moles());
        assert!(g_cand.m < g_self.m, "g_cand = {:?}, g_self = {:?}", g_cand, g_self);
    }
}

#[test]
fn chemical_potential_matches_mole_perturbation() {
    // Finite-difference cross-check of mu = dA/dn for the pure model.
    let eos = vdw_pure();
    let t = Fx::from_int(12);
    let v = Fx::from_int(2);
    let st = State::new_nvt(&eos, t, v, None).unwrap();
    let mu = st.chemical_potential(&eos, Contributions::Total);
    assert_eq!(mu.len(), 1);
    let h = fx(1, 1024);
    let np = vec![Fx::one().add(h)];
    let nm = vec![Fx::one().sub(h)];
    let sp = State::new_nvt(&eos, t, v, Some(&np)).unwrap();
    let sm = State::new_nvt(&eos, t, v, Some(&nm)).unwrap();
    let ap = sp.helmholtz_energy(&eos, Contributions::Total);
    let am = sm.helmholtz_energy(&eos, Contributions::Total);
    let fd = ap.sub(am).div(h.mul_int(2));
    assert!(approx(mu[0], fd, 3_000_000), "mu = {:?}, fd = {:?}", mu[0], fd);
}

#[test]
fn derived_quantities_are_mutually_consistent() {
    let eos = vdw_pure();
    let moles = vec![fx(3, 2)];
    let st = State::new_nvt(&eos, Fx::from_int(12), Fx::from_int(2), Some(&moles)).unwrap();
    let ntot = st.total_moles();
    let rho = st.density();
    let partial = st.partial_density();
    let x = st.molefracs();
    assert_eq!(ntot, fx(3, 2));
    assert_eq!(rho, fx(3, 4));
    assert_eq!(partial[0], fx(3, 4));
    assert_eq!(x[0].m, SCALE);
}

#[test]
fn error_messages_are_meaningful() {
    assert!(!EosError::UndeterminedState.message().is_empty());
    assert!(!EosError::NotConverged(7).message().is_empty());
    assert!(!EosError::MissingMolarWeight.message().is_empty());
}

#[test]
fn missing_molar_weight_is_a_typed_error() {
    let eos = ideal_only();
    assert_eq!(
        eos.residual.molar_weight().unwrap_err(),
        EosError::MissingMolarWeight
    );
    let vdw = vdw_pure();
    assert_eq!(vdw.residual.molar_weight().unwrap()[0], fx(44, 1));
}

#[test]
fn subset_projects_the_model() {
    let b = vec![fx(1, 10), fx(2, 10)];
    let a = vec![fx(27, 8), fx(27, 8)];
    let k_ij = vec![vec![Fx::zero(), Fx::zero()], vec![Fx::zero(), Fx::zero()]];
    let contributions = vec![
        Contribution::HardSphere { b },
        Contribution::mean_field(&a, &k_ij),
    ];
    let residual = ResidualModel::new(2, contributions, None).unwrap();
    let sub = residual.subset(&[1usize]);
    assert_eq!(sub.components(), 1);
    match &sub.contributions[0] {
        Contribution::HardSphere { b } => assert_eq!(b[0], fx(2, 10)),
        _ => panic!("expected the repulsive term first"),
    }
}

#[test]
fn critical_point_of_a_propane_parameterization() {
    // Covolume and energy fitted to the literature critical point of
    // propane (369.8 in reduced Kelvin): b = 0.09047, a = 27 b Tc / 8.
    let b = fx(9047, 100000);
    let a = b.mul_int(27).mul(fx(3698, 10)).div_int(8);
    let contributions = vec![
        Contribution::HardSphere { b: vec![b] },
        Contribution::mean_field(&vec![a], &vec![vec![Fx::zero()]]),
    ];
    let eos = EquationOfState::new(
        ResidualModel::new(1, contributions, None).unwrap(),
        IdealGasModel::UnitWavelength,
    );
    let cp = critical_point_pure(&eos, Some(Fx::from_int(350)), options(400, 1 << 18)).unwrap();
    // Within one Kelvin of the literature value.
    assert!(
        approx(cp.temperature, fx(3698, 10), SCALE),
        "Tc = {:?}",
        cp.temperature
    );
}

#[test]
fn contribution_filter_is_consistent() {
    // The three filters agree: total pressure is the sum of the ideal and
    // residual parts, up to the last fixed-point digit.
    let eos = vdw_pure();
    let st = State::new_nvt(&eos, Fx::from_int(12), Fx::one(), None).unwrap();
    let p_total = st.pressure(&eos, Contributions::Total);
    let p_res = st.pressure(&eos, Contributions::Residual);
    let p_ig = st.pressure(&eos, Contributions::IdealGas);
    assert!(approx(p_total, p_res.add(p_ig), 2), "total = {:?}", p_total);
    let s_total = st.entropy(&eos, Contributions::Total);
    let s_res = st.entropy(&eos, Contributions::Residual);
    let s_ig = st.entropy(&eos, Contributions::IdealGas);
    assert!(approx(s_total, s_res.add(s_ig), 4), "entropy = {:?}", s_total);
}

#[test]
fn binary_critical_point_at_prescribed_temperature() {
    // Two components with the same covolume but different energies: the
    // critical locus runs from 10 to about 17.8, so a prescribed critical
    // temperature of 13 picks an intermediate composition.
    let b = vec![fx(1, 10), fx(1, 10)];
    let a = vec![fx(27, 8), Fx::from_int(6)];
    let k_ij = vec![vec![Fx::zero(), Fx::zero()], vec![Fx::zero(), Fx::zero()]];
    let contributions = vec![
        Contribution::HardSphere { b },
        Contribution::mean_field(&a, &k_ij),
    ];
    let eos = EquationOfState::new(
        ResidualModel::new(2, contributions, None).unwrap(),
        IdealGasModel::UnitWavelength,
    );
    let target = Fx::from_int(13);
    let cp = critical_point_binary(
        &eos,
        TemperatureOrPressure::Temperature(target),
        Some(Fx::from_int(13)),
        None,
        options(300, 1 << 16),
    )
    .unwrap();
    assert!(approx(cp.temperature, target, SCALE / 100), "Tc = {:?}", cp.temperature);
    // The composition is a genuine mixture.
    let x = cp.moles[0].div(cp.total_moles());
    assert!(x.m > SCALE / 20 && x.m < SCALE - SCALE / 20, "x = {:?}", x);
    // Both criticality conditions hold there.
    let (c1, c2) = cp.criticality_conditions(&eos);
    assert!(c1.abs().m <= 1 << 16);
    assert!(c2.abs().m <= 1 << 16);
}

#[test]
fn state_from_temperature_and_enthalpy() {
    let eos = vdw_pure();
    let t = Fx::from_int(12);
    let v = Fx::one();
    let st = State::new_nvt(&eos, t, v, None).unwrap();
    let h = st.molar_enthalpy(&eos, Contributions::Total);
    let back = State::new(
        &eos,
        Some(t),
        None,
        None,
        None,
        None,
        None,
        None,
        None,
        Some(h),
        None,
        None,
        DensityInitialization::InitialDensity(fx(12, 10)),
        None,
        options(400, 4096),
    )
    .unwrap();
    assert_eq!(back.temperature, t);
    assert!(approx(back.volume, v, SCALE / 100), "volume = {:?}", back.volume);
}

#[test]
fn state_from_volume_and_pressure() {
    let eos = vdw_pure();
    let t = Fx::from_int(12);
    let v = Fx::one();
    let st = State::new_nvt(&eos, t, v, None).unwrap();
    let p = st.pressure(&eos, Contributions::Total);
    let back = State::new(
        &eos,
        None,
        Some(v),
        None,
        None,
        None,
        None,
        None,
        Some(p),
        None,
        None,
        None,
        DensityInitialization::Unspecified,
        Some(Fx::from_int(10)),
        options(400, 4096),
    )
    .unwrap();
    assert_eq!(back.volume, v);
    assert!(
        approx(back.temperature, t, SCALE / 100),
        "temperature = {:?}",
        back.temperature
    );
}

#[test]
fn state_from_density_molefracs_and_total() {
    let eos = vdw_pure();
    let x = vec![Fx::one()];
    let st = State::new(
        &eos,
        Some(Fx::from_int(12)),
        None,
        Some(fx(1, 2)),
        None,
        Some(Fx::from_int(2)),
        None,
        Some(&x),
        None,
        None,
        None,
        None,
        DensityInitialization::Unspecified,
        None,
        options(400, 64),
    )
    .unwrap();
    // Two moles at density one half occupy a volume of four.
    assert!(approx(st.volume, Fx::from_int(4), 16), "volume = {:?}", st.volume);
    assert!(approx(st.total_moles(), Fx::from_int(2), 4));
}

#[test]
fn converged_seed_succeeds_within_one_iteration() {
    // A seed that already meets the pressure target must resolve even with
    // the smallest iteration budget.
    let eos = vdw_pure();
    let t = Fx::from_int(12);
    let st0 = State::new_nvt(&eos, t, Fx::one(), None).unwrap();
    let p = st0.pressure(&eos, Contributions::Total);
    let back = State::new(
        &eos,
        Some(t),
        None,
        None,
        None,
        None,
        None,
        None,
        Some(p),
        None,
        None,
        None,
        DensityInitialization::InitialDensity(Fx::one()),
        None,
        options(1, 4096),
    )
    .unwrap();
    assert_eq!(back.volume, Fx::one());
}

#[test]
fn subset_projects_contents_and_weights() {
    let b = vec![fx(1, 10), fx(2, 10)];
    let a = vec![Fx::from_int(4), Fx::from_int(9)];
    let k_ij = vec![vec![Fx::zero(), Fx::zero()], vec![Fx::zero(), Fx::zero()]];
    let contributions = vec![
        Contribution::HardSphere { b },
        Contribution::mean_field(&a, &k_ij),
    ];
    let residual =
        ResidualModel::new(2, contributions, Some(vec![fx(10, 1), fx(20, 1)])).unwrap();
    let sub = residual.subset(&[1usize, 0usize]);
    assert_eq!(sub.components(), 2);
    match &sub.contributions[0] {
        Contribution::HardSphere { b } => {
            assert_eq!(b[0], fx(2, 10));
            assert_eq!(b[1], fx(1, 10));
        }
        _ => panic!("expected the repulsive term first"),
    }
    match (&residual.contributions[1], &sub.contributions[1]) {
        (Contribution::MeanField { a_ij }, Contribution::MeanField { a_ij: sa }) => {
            assert_eq!(sa[0][0], a_ij[1][1]);
            assert_eq!(sa[0][1], a_ij[1][0]);
            assert_eq!(sa[1][1], a_ij[0][0]);
        }
        _ => panic!("expected the attractive term second"),
    }
    assert_eq!(sub.molar_weight.as_ref().unwrap()[0], fx(20, 1));
    assert_eq!(sub.molar_weight.as_ref().unwrap()[1], fx(10, 1));
}
