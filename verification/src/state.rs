//! Thermodynamic states and the property evaluator.
//!
//! A state owns temperature, volume and mole numbers; every derived
//! quantity is computed from that immutable triple, so the derived values
//! are mutually consistent by their very contracts. Properties are partial
//! derivatives of the total reduced Helmholtz energy, read off the dual
//! channels of one model evaluation at the needed order.

use vstd::prelude::*;

use crate::error::EosError;
use crate::fixed::{add_spec, clip, div_spec, mul_spec, seq_m, sub_spec, Fx, SCALE};
use crate::model::{
    eos_td, sum_seq, validate_moles_with, Contributions, EquationOfState, Residual, StateHD,
};
use crate::taylor::{td_const_spec, TdS};

verus! {

/// An immutable thermodynamic state: temperature, volume and mole numbers
/// in reduced units.
#[derive(Clone, Debug)]
pub struct State {
    /// Temperature.
    pub temperature: Fx,
    /// Volume.
    pub volume: Fx,
    /// Mole number of each component.
    pub moles: Vec<Fx>,
}

impl State {
    /// Physical well-formedness: positive temperature and volume,
    /// non-negative mole numbers with a positive total.
    pub open spec fn wf(self) -> bool {
        &&& self.temperature@ > 0
        &&& self.volume@ > 0
        &&& forall|i: int| 0 <= i < self.moles@.len() ==> (#[trigger] self.moles@[i])@ >= 0
        &&& sum_seq(seq_m(self.moles@)) > 0
    }

    /// Whether the state's composition fits the model.
    pub open spec fn compatible(self, eos: EquationOfState) -> bool {
        eos.residual.spec_compatible(self.moles@.len())
    }
}

/// The dual evaluation of the selected reduced Helmholtz energy at a state,
/// seeded for temperature and volume derivatives.
pub open spec fn props_td(
    eos: EquationOfState,
    t: int,
    v: int,
    n: Seq<int>,
    which: Contributions,
) -> TdS {
    eos_td(
        eos,
        TdS { a10: SCALE as int, ..td_const_spec(t) },
        TdS { a01: SCALE as int, ..td_const_spec(v) },
        n,
        which,
    )
}

/// Pressure: minus the volume derivative of the Helmholtz energy,
/// `-T * dA~/dV` in reduced units.
pub open spec fn pressure_spec(
    eos: EquationOfState,
    t: int,
    v: int,
    n: Seq<int>,
    which: Contributions,
) -> int {
    clip(-mul_spec(t, props_td(eos, t, v, n, which).a01))
}

/// Volume derivative of the pressure.
pub open spec fn dp_dv_spec(
    eos: EquationOfState,
    t: int,
    v: int,
    n: Seq<int>,
    which: Contributions,
) -> int {
    clip(-mul_spec(t, clip(props_td(eos, t, v, n, which).a02 * 2)))
}

/// Second volume derivative of the pressure.
pub open spec fn d2p_dv2_spec(
    eos: EquationOfState,
    t: int,
    v: int,
    n: Seq<int>,
    which: Contributions,
) -> int {
    clip(-mul_spec(t, clip(props_td(eos, t, v, n, which).a03 * 6)))
}

/// Temperature derivative of the pressure.
pub open spec fn dp_dt_spec(
    eos: EquationOfState,
    t: int,
    v: int,
    n: Seq<int>,
    which: Contributions,
) -> int {
    sub_spec(clip(-props_td(eos, t, v, n, which).a01), mul_spec(t, props_td(eos, t, v, n, which).a11))
}

/// Entropy: `-(A~ + T * dA~/dT)` in reduced units.
pub open spec fn entropy_spec(
    eos: EquationOfState,
    t: int,
    v: int,
    n: Seq<int>,
    which: Contributions,
) -> int {
    clip(-add_spec(props_td(eos, t, v, n, which).a00, mul_spec(t, props_td(eos, t, v, n, which).a10)))
}

/// Helmholtz energy: `T * A~` in reduced units.
pub open spec fn helmholtz_spec(
    eos: EquationOfState,
    t: int,
    v: int,
    n: Seq<int>,
    which: Contributions,
) -> int {
    mul_spec(t, props_td(eos, t, v, n, which).a00)
}

/// Internal energy: `-T^2 * dA~/dT` in reduced units.
pub open spec fn internal_energy_spec(
    eos: EquationOfState,
    t: int,
    v: int,
    n: Seq<int>,
    which: Contributions,
) -> int {
    clip(-mul_spec(mul_spec(t, t), props_td(eos, t, v, n, which).a10))
}

/// Enthalpy: internal energy plus pressure times volume.
pub open spec fn enthalpy_spec(
    eos: EquationOfState,
    t: int,
    v: int,
    n: Seq<int>,
    which: Contributions,
) -> int {
    add_spec(internal_energy_spec(eos, t, v, n, which), mul_spec(pressure_spec(eos, t, v, n, which), v))
}

/// Molar entropy of a state.
pub open spec fn molar_entropy_spec(
    eos: EquationOfState,
    t: int,
    v: int,
    n: Seq<int>,
    which: Contributions,
) -> int {
    div_spec(entropy_spec(eos, t, v, n, which), sum_seq(n))
}

/// Molar enthalpy of a state.
pub open spec fn molar_enthalpy_spec(
    eos: EquationOfState,
    t: int,
    v: int,
    n: Seq<int>,
    which: Contributions,
) -> int {
    div_spec(enthalpy_spec(eos, t, v, n, which), sum_seq(n))
}

/// Molar internal energy of a state.
pub open spec fn molar_internal_energy_spec(
    eos: EquationOfState,
    t: int,
    v: int,
    n: Seq<int>,
    which: Contributions,
) -> int {
    div_spec(internal_energy_spec(eos, t, v, n, which), sum_seq(n))
}

impl State {
    /// Build a state from temperature, volume and mole numbers, after
    /// validating the composition against the model and the physical
    /// domain.
    #[verifier::loop_isolation(false)]
    pub fn new_nvt(
        eos: &EquationOfState,
        temperature: Fx,
        volume: Fx,
        moles: Option<&Vec<Fx>>,
    ) -> (r: Result<State, EosError>)
        requires
            eos.residual.wf(),
        ensures
            match r {
                Ok(st) => {
                    &&& st.wf()
                    &&& st.compatible(*eos)
                    &&& st.temperature == temperature
                    &&& st.volume == volume
                    &&& match moles {
                        Some(m) => st.moles@ == m@,
                        None => seq_m(st.moles@) == seq![SCALE as int],
                    }
                },
                Err(e) => {
                    ||| e matches EosError::IncompatibleComponents(_, _)
                    ||| e == EosError::DomainError
                },
            },
            temperature@ > 0 && volume@ > 0 && (match moles {
                Some(m) => eos.residual.spec_components() == m@.len()
                    && crate::solver::moles_ok(seq_m(m@)),
                None => eos.residual.spec_components() == 1,
            }) ==> r is Ok,
    {
        let n = validate_moles_with(eos.residual.n_components, moles)?;
        if !temperature.is_pos() || !volume.is_pos() {
            return Err(EosError::DomainError);
        }
        proof {
            match moles {
                Some(m) => {
                    if crate::solver::moles_ok(seq_m(m@)) {
                        assert(seq_m(n@) == seq_m(m@));
                        assert forall|p: int| 0 <= p < n@.len() implies (#[trigger] n@[p])@
                            >= 0 by {
                            assert(seq_m(m@)[p] == m@[p]@);
                            assert(seq_m(m@)[p] >= 0);
                        };
                        assert(sum_seq(seq_m(n@)) > 0);
                    }
                },
                None => {
                    assert(seq_m(n@) == seq![SCALE as int]);
                    assert(seq_m(n@).len() == 1);
                    assert(n@.len() == 1);
                    assert(seq_m(n@)[0] == seq![SCALE as int][0]);
                    assert(seq_m(n@)[0] == SCALE as int);
                    assert forall|p: int| 0 <= p < n@.len() implies (#[trigger] n@[p])@ >= 0 by {
                        assert(p == 0);
                        assert(seq_m(n@)[p] == n@[p]@);
                    };
                    assert(crate::model::sum_pre(seq_m(n@), 1) == crate::fixed::add_spec(
                        crate::model::sum_pre(seq_m(n@), 0),
                        seq_m(n@)[0],
                    ));
                    assert(sum_seq(seq_m(n@)) == SCALE as int);
                },
            }
        }
        let mut i: usize = 0;
        while i < n.len()
            invariant
                0 <= i <= n@.len(),
                forall|p: int| 0 <= p < i ==> (#[trigger] n@[p])@ >= 0,
            decreases n@.len() - i,
        {
            if n[i].is_neg() {
                return Err(EosError::DomainError);
            }
            i = i + 1;
        }
        let ntot = crate::model::sum_fx(&n);
        if !ntot.is_pos() {
            return Err(EosError::DomainError);
        }
        Ok(State { temperature, volume, moles: n })
    }

    /// Total number of moles.
    pub fn total_moles(&self) -> (r: Fx)
        ensures
            r@ == sum_seq(seq_m(self.moles@)),
    {
        crate::model::sum_fx(&self.moles)
    }

    /// Density: total moles over volume, always consistent with the stored
    /// triple.
    pub fn density(&self) -> (r: Fx)
        ensures
            r@ == div_spec(sum_seq(seq_m(self.moles@)), self.volume@),
    {
        self.total_moles().div(self.volume)
    }

    /// Partial density of each component: its mole number over the volume.
    pub fn partial_density(&self) -> (r: Vec<Fx>)
        ensures
            r@.len() == self.moles@.len(),
            forall|i: int|
                0 <= i < r@.len() ==> (#[trigger] r@[i])@ == div_spec(
                    self.moles@[i]@,
                    self.volume@,
                ),
    {
        let mut out: Vec<Fx> = Vec::new();
        let mut i: usize = 0;
        while i < self.moles.len()
            invariant
                0 <= i <= self.moles@.len(),
                out@.len() == i,
                forall|p: int|
                    0 <= p < i ==> (#[trigger] out@[p])@ == div_spec(
                        self.moles@[p]@,
                        self.volume@,
                    ),
            decreases self.moles@.len() - i,
        {
            out.push(self.moles[i].div(self.volume));
            i = i + 1;
        }
        out
    }

    /// Mole fraction of each component: its mole number over the total.
    pub fn molefracs(&self) -> (r: Vec<Fx>)
        ensures
            r@.len() == self.moles@.len(),
            forall|i: int|
                0 <= i < r@.len() ==> (#[trigger] r@[i])@ == div_spec(
                    self.moles@[i]@,
                    sum_seq(seq_m(self.moles@)),
                ),
    {
        let ntot = self.total_moles();
        let mut out: Vec<Fx> = Vec::new();
        let mut i: usize = 0;
        while i < self.moles.len()
            invariant
                0 <= i <= self.moles@.len(),
                ntot@ == sum_seq(seq_m(self.moles@)),
                out@.len() == i,
                forall|p: int|
                    0 <= p < i ==> (#[trigger] out@[p])@ == div_spec(
                        self.moles@[p]@,
                        sum_seq(seq_m(self.moles@)),
                    ),
            decreases self.moles@.len() - i,
        {
            out.push(self.moles[i].div(ntot));
            i = i + 1;
        }
        out
    }

    /// The dual evaluation of the selected Helmholtz energy at this state.
    fn props(&self, eos: &EquationOfState, which: Contributions) -> (r: crate::taylor::Td)
        requires
            self.compatible(*eos),
        ensures
            r@ == props_td(*eos, self.temperature@, self.volume@, seq_m(self.moles@), which),
    {
        let hd = StateHD::new(self.temperature, self.volume, clone_fx_vec(&self.moles));
        eos.evaluate(&hd, which)
    }

    /// Pressure.
    pub fn pressure(&self, eos: &EquationOfState, which: Contributions) -> (r: Fx)
        requires
            self.compatible(*eos),
        ensures
            r@ == pressure_spec(*eos, self.temperature@, self.volume@, seq_m(self.moles@), which),
    {
        let a = self.props(eos, which);
        self.temperature.mul(a.d_v()).neg()
    }

    /// Pressure of each residual contribution, paired with its display
    /// name in declaration order: minus the temperature times the volume
    /// derivative of that contribution's reduced Helmholtz energy. The
    /// filter semantics never mix with the derivative order.
    pub fn pressure_contributions(&self, eos: &EquationOfState) -> (r: Vec<(String, Fx)>)
        requires
            self.compatible(*eos),
        ensures
            r@.len() == eos.residual.contributions@.len(),
            forall|k: int|
                0 <= k < r@.len() ==> (#[trigger] r@[k]).0@ == crate::model::name_spec(
                    eos.residual.contributions@[k],
                ),
            forall|k: int|
                0 <= k < r@.len() ==> (#[trigger] r@[k]).1@ == clip(
                    -mul_spec(
                        self.temperature@,
                        crate::model::contrib_td(
                            eos.residual.contributions@[k],
                            (TdS { a10: SCALE as int, ..td_const_spec(self.temperature@) }),
                            (TdS { a01: SCALE as int, ..td_const_spec(self.volume@) }),
                            seq_m(self.moles@),
                        ).a01,
                    ),
                ),
    {
        let hd = StateHD::new(self.temperature, self.volume, clone_fx_vec(&self.moles));
        let parts = eos.residual.evaluate_residual_contributions(&hd);
        let mut out: Vec<(String, Fx)> = Vec::new();
        let mut i: usize = 0;
        while i < parts.len()
            invariant
                self.compatible(*eos),
                parts@.len() == eos.residual.contributions@.len(),
                forall|k: int|
                    0 <= k < parts@.len() ==> (#[trigger] parts@[k]).0@
                        == crate::model::name_spec(eos.residual.contributions@[k]),
                forall|k: int|
                    0 <= k < parts@.len() ==> (#[trigger] parts@[k]).1@
                        == crate::model::contrib_td(
                        eos.residual.contributions@[k],
                        (TdS { a10: SCALE as int, ..td_const_spec(self.temperature@) }),
                        (TdS { a01: SCALE as int, ..td_const_spec(self.volume@) }),
                        seq_m(self.moles@),
                    ),
                0 <= i <= parts@.len(),
                out@.len() == i,
                forall|k: int|
                    0 <= k < i ==> (#[trigger] out@[k]).0@ == crate::model::name_spec(
                        eos.residual.contributions@[k],
                    ),
                forall|k: int|
                    0 <= k < i ==> (#[trigger] out@[k]).1@ == clip(
                        -mul_spec(
                            self.temperature@,
                            crate::model::contrib_td(
                                eos.residual.contributions@[k],
                                (TdS { a10: SCALE as int, ..td_const_spec(self.temperature@) }),
                                (TdS { a01: SCALE as int, ..td_const_spec(self.volume@) }),
                                seq_m(self.moles@),
                            ).a01,
                        ),
                    ),
            decreases parts@.len() - i,
        {
            let p = self.temperature.mul(parts[i].1.d_v()).neg();
            let name = String::from_str(parts[i].0.as_str());
            out.push((name, p));
            i = i + 1;
        }
        out
    }

    /// Volume derivative of the pressure.
    pub fn dp_dv(&self, eos: &EquationOfState, which: Contributions) -> (r: Fx)
        requires
            self.compatible(*eos),
        ensures
            r@ == dp_dv_spec(*eos, self.temperature@, self.volume@, seq_m(self.moles@), which),
    {
        let a = self.props(eos, which);
        self.temperature.mul(a.d_vv()).neg()
    }

    /// Second volume derivative of the pressure.
    pub fn d2p_dv2(&self, eos: &EquationOfState, which: Contributions) -> (r: Fx)
        requires
            self.compatible(*eos),
        ensures
            r@ == d2p_dv2_spec(*eos, self.temperature@, self.volume@, seq_m(self.moles@), which),
    {
        let a = self.props(eos, which);
        self.temperature.mul(a.d_vvv()).neg()
    }

    /// Temperature derivative of the pressure.
    pub fn dp_dt(&self, eos: &EquationOfState, which: Contributions) -> (r: Fx)
        requires
            self.compatible(*eos),
        ensures
            r@ == dp_dt_spec(*eos, self.temperature@, self.volume@, seq_m(self.moles@), which),
    {
        let a = self.props(eos, which);
        a.d_v().neg().sub(self.temperature.mul(a.d_tv()))
    }

    /// Density derivative of the pressure, through the chain rule
    /// `dV/drho = -V^2 / n`.
    pub fn dp_drho(&self, eos: &EquationOfState, which: Contributions) -> (r: Fx)
        requires
            self.compatible(*eos),
        ensures
            r@ == clip(
                -mul_spec(
                    dp_dv_spec(*eos, self.temperature@, self.volume@, seq_m(self.moles@), which),
                    div_spec(mul_spec(self.volume@, self.volume@), sum_seq(seq_m(self.moles@))),
                ),
            ),
    {
        let dpdv = self.dp_dv(eos, which);
        let v2 = self.volume.mul(self.volume);
        dpdv.mul(v2.div(self.total_moles())).neg()
    }

    /// Entropy.
    pub fn entropy(&self, eos: &EquationOfState, which: Contributions) -> (r: Fx)
        requires
            self.compatible(*eos),
        ensures
            r@ == entropy_spec(*eos, self.temperature@, self.volume@, seq_m(self.moles@), which),
    {
        let a = self.props(eos, which);
        a.value().add(self.temperature.mul(a.d_t())).neg()
    }

    /// Molar entropy.
    pub fn molar_entropy(&self, eos: &EquationOfState, which: Contributions) -> (r: Fx)
        requires
            self.compatible(*eos),
        ensures
            r@ == molar_entropy_spec(
                *eos,
                self.temperature@,
                self.volume@,
                seq_m(self.moles@),
                which,
            ),
    {
        self.entropy(eos, which).div(self.total_moles())
    }

    /// Helmholtz energy.
    pub fn helmholtz_energy(&self, eos: &EquationOfState, which: Contributions) -> (r: Fx)
        requires
            self.compatible(*eos),
        ensures
            r@ == helmholtz_spec(*eos, self.temperature@, self.volume@, seq_m(self.moles@), which),
    {
        let a = self.props(eos, which);
        self.temperature.mul(a.value())
    }

    /// Internal energy.
    pub fn internal_energy(&self, eos: &EquationOfState, which: Contributions) -> (r: Fx)
        requires
            self.compatible(*eos),
        ensures
            r@ == internal_energy_spec(
                *eos,
                self.temperature@,
                self.volume@,
                seq_m(self.moles@),
                which,
            ),
    {
        let a = self.props(eos, which);
        self.temperature.mul(self.temperature).mul(a.d_t()).neg()
    }

    /// Molar internal energy.
    pub fn molar_internal_energy(&self, eos: &EquationOfState, which: Contributions) -> (r: Fx)
        requires
            self.compatible(*eos),
        ensures
            r@ == molar_internal_energy_spec(
                *eos,
                self.temperature@,
                self.volume@,
                seq_m(self.moles@),
                which,
            ),
    {
        self.internal_energy(eos, which).div(self.total_moles())
    }

    /// Enthalpy.
    pub fn enthalpy(&self, eos: &EquationOfState, which: Contributions) -> (r: Fx)
        requires
            self.compatible(*eos),
        ensures
            r@ == enthalpy_spec(*eos, self.temperature@, self.volume@, seq_m(self.moles@), which),
    {
        let u = self.internal_energy(eos, which);
        let p = self.pressure(eos, which);
        u.add(p.mul(self.volume))
    }

    /// Molar enthalpy.
    pub fn molar_enthalpy(&self, eos: &EquationOfState, which: Contributions) -> (r: Fx)
        requires
            self.compatible(*eos),
        ensures
            r@ == molar_enthalpy_spec(
                *eos,
                self.temperature@,
                self.volume@,
                seq_m(self.moles@),
                which,
            ),
    {
        self.enthalpy(eos, which).div(self.total_moles())
    }

    /// Compressibility factor: `p V / (n T)`.
    pub fn compressibility(&self, eos: &EquationOfState, which: Contributions) -> (r: Fx)
        requires
            self.compatible(*eos),
        ensures
            r@ == div_spec(
                mul_spec(
                    pressure_spec(*eos, self.temperature@, self.volume@, seq_m(self.moles@), which),
                    self.volume@,
                ),
                mul_spec(sum_seq(seq_m(self.moles@)), self.temperature@),
            ),
    {
        let p = self.pressure(eos, which);
        p.mul(self.volume).div(self.total_moles().mul(self.temperature))
    }

    /// Molar isochoric heat capacity: `-T (2 dA~/dT + T d2A~/dT2) / n`.
    pub fn molar_isochoric_heat_capacity(
        &self,
        eos: &EquationOfState,
        which: Contributions,
    ) -> (r: Fx)
        requires
            self.compatible(*eos),
        ensures
            r@ == div_spec(
                clip(
                    -mul_spec(
                        self.temperature@,
                        add_spec(
                            clip(
                                props_td(
                                    *eos,
                                    self.temperature@,
                                    self.volume@,
                                    seq_m(self.moles@),
                                    which,
                                ).a10 * 2,
                            ),
                            mul_spec(
                                self.temperature@,
                                clip(
                                    props_td(
                                        *eos,
                                        self.temperature@,
                                        self.volume@,
                                        seq_m(self.moles@),
                                        which,
                                    ).a20 * 2,
                                ),
                            ),
                        ),
                    ),
                ),
                sum_seq(seq_m(self.moles@)),
            ),
    {
        let a = self.props(eos, which);
        let inner = a.d_t().mul_int(2).add(self.temperature.mul(a.d_tt()));
        self.temperature.mul(inner).neg().div(self.total_moles())
    }

    /// Molar isobaric heat capacity: the isochoric one minus
    /// `T (dp/dT)^2 / (dp/dV)`, per mole.
    pub fn molar_isobaric_heat_capacity(
        &self,
        eos: &EquationOfState,
        which: Contributions,
    ) -> (r: Fx)
        requires
            self.compatible(*eos),
        ensures
            r@ == ({
                let t = self.temperature@;
                let v = self.volume@;
                let n = seq_m(self.moles@);
                let cv = clip(
                    -mul_spec(
                        t,
                        add_spec(
                            clip(props_td(*eos, t, v, n, which).a10 * 2),
                            mul_spec(t, clip(props_td(*eos, t, v, n, which).a20 * 2)),
                        ),
                    ),
                );
                let pt = dp_dt_spec(*eos, t, v, n, which);
                let pv = dp_dv_spec(*eos, t, v, n, which);
                div_spec(
                    sub_spec(cv, div_spec(mul_spec(t, mul_spec(pt, pt)), pv)),
                    sum_seq(n),
                )
            }),
    {
        let a = self.props(eos, which);
        let t = self.temperature;
        let cv_total = t.mul(a.d_t().mul_int(2).add(t.mul(a.d_tt()))).neg();
        let pt = self.dp_dt(eos, which);
        let pv = self.dp_dv(eos, which);
        cv_total.sub(t.mul(pt.mul(pt)).div(pv)).div(self.total_moles())
    }

}

/// An element-wise copy of a scalar vector.
pub fn clone_fx_vec(v: &Vec<Fx>) -> (r: Vec<Fx>)
    ensures
        r@ == v@,
{
    let mut out: Vec<Fx> = Vec::new();
    let mut i: usize = 0;
    while i < v.len()
        invariant
            0 <= i <= v@.len(),
            out@ == v@.subrange(0, i as int),
        decreases v@.len() - i,
    {
        out.push(v[i]);
        i = i + 1;
    }
    proof {
        assert(out@ =~= v@);
    }
    out
}

/// The composition gradient of the selected reduced Helmholtz energy.
pub open spec fn mu_gd_spec(
    eos: EquationOfState,
    t: int,
    v: int,
    n: Seq<int>,
    which: Contributions,
) -> Seq<int> {
    crate::model::eos_gd(eos, t, v, n, which).g
}

/// The compressibility factor at spec level.
pub open spec fn compressibility_spec(
    eos: EquationOfState,
    t: int,
    v: int,
    n: Seq<int>,
    which: Contributions,
) -> int {
    div_spec(mul_spec(pressure_spec(eos, t, v, n, which), v), mul_spec(sum_seq(n), t))
}

/// The logarithmic fugacity coefficient of each component:
/// the residual chemical potential over the temperature, minus the
/// logarithm of the compressibility factor.
pub open spec fn ln_phi_spec(eos: EquationOfState, t: int, v: int, n: Seq<int>) -> Seq<int> {
    let g = mu_gd_spec(eos, t, v, n, Contributions::Residual);
    let lnz = crate::transcend::ln_spec(
        compressibility_spec(eos, t, v, n, Contributions::Total),
    );
    Seq::new(g.len(), |i: int| sub_spec(g[i], lnz))
}

impl State {
    /// Chemical potential of each component: the mole-number derivative of
    /// the selected Helmholtz energy, `T * dA~/dn_i`.
    pub fn chemical_potential(&self, eos: &EquationOfState, which: Contributions) -> (r: Vec<Fx>)
        requires
            self.compatible(*eos),
        ensures
            r@.len() == self.moles@.len(),
            forall|i: int|
                0 <= i < r@.len() ==> (#[trigger] r@[i])@ == mul_spec(
                    self.temperature@,
                    mu_gd_spec(
                        *eos,
                        self.temperature@,
                        self.volume@,
                        seq_m(self.moles@),
                        which,
                    )[i],
                ),
    {
        let g = eos.evaluate_grad(self.temperature, self.volume, &self.moles, which);
        let mut out: Vec<Fx> = Vec::new();
        let mut i: usize = 0;
        while i < g.g.len()
            invariant
                0 <= i <= g.g@.len(),
                g.g@.len() == self.moles@.len(),
                g@ == crate::model::eos_gd(
                    *eos,
                    self.temperature@,
                    self.volume@,
                    seq_m(self.moles@),
                    which,
                ),
                out@.len() == i,
                forall|p: int|
                    0 <= p < i ==> (#[trigger] out@[p])@ == mul_spec(
                        self.temperature@,
                        g@.g[p],
                    ),
            decreases g.g@.len() - i,
        {
            out.push(self.temperature.mul(g.g[i]));
            i = i + 1;
        }
        out
    }

    /// Logarithmic fugacity coefficient of each component.
    pub fn ln_phi(&self, eos: &EquationOfState) -> (r: Vec<Fx>)
        requires
            self.compatible(*eos),
        ensures
            r@.len() == self.moles@.len(),
            seq_m(r@) == ln_phi_spec(
                *eos,
                self.temperature@,
                self.volume@,
                seq_m(self.moles@),
            ),
    {
        let g = eos.evaluate_grad(
            self.temperature,
            self.volume,
            &self.moles,
            Contributions::Residual,
        );
        let z = self.compressibility(eos, Contributions::Total);
        let lnz = crate::transcend::ln_fx(z);
        let mut out: Vec<Fx> = Vec::new();
        let mut i: usize = 0;
        while i < g.g.len()
            invariant
                0 <= i <= g.g@.len(),
                g.g@.len() == self.moles@.len(),
                g@ == crate::model::eos_gd(
                    *eos,
                    self.temperature@,
                    self.volume@,
                    seq_m(self.moles@),
                    Contributions::Residual,
                ),
                lnz@ == crate::transcend::ln_spec(
                    compressibility_spec(
                        *eos,
                        self.temperature@,
                        self.volume@,
                        seq_m(self.moles@),
                        Contributions::Total,
                    ),
                ),
                out@.len() == i,
                forall|p: int|
                    0 <= p < i ==> (#[trigger] out@[p])@ == sub_spec(g@.g[p], lnz@),
            decreases g.g@.len() - i,
        {
            out.push(g.g[i].sub(lnz));
            i = i + 1;
        }
        proof {
            assert(seq_m(out@) =~= ln_phi_spec(
                *eos,
                self.temperature@,
                self.volume@,
                seq_m(self.moles@),
            ));
        }
        out
    }
}

} // verus!
