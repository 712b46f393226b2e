//! Phase-stability analysis by the tangent-plane distance.
//!
//! A candidate state is perturbed toward trial compositions; each trial is
//! resolved to the candidate's temperature and pressure and refined by
//! successive substitution. A negative tangent-plane distance at a
//! converged trial proves the candidate unstable and the trial is kept as
//! a more stable phase; a candidate with no destabilizing direction is
//! returned alone.

use vstd::prelude::*;

use crate::error::EosError;
use crate::fixed::{div_spec, mul_spec, seq_m, sub_spec, Fx};
use crate::model::{eos_gd, sum_seq, Contributions, EquationOfState, Residual};
use crate::solver::{moles_ok, resolve_density, DensityInitialization, SolverOptions};
use crate::state::State;

verus! {

/// The running tangent-plane sum over the first `k` components: the trial
/// mole fraction times the difference of total chemical potentials over
/// the temperature.
pub open spec fn tpd_pre(
    eos: EquationOfState,
    wt: int,
    wv: int,
    wn: Seq<int>,
    zt: int,
    zv: int,
    zn: Seq<int>,
    k: nat,
) -> int
    decreases k,
{
    if k == 0 {
        0
    } else {
        let gw = eos_gd(eos, wt, wv, wn, Contributions::Total).g;
        let gz = eos_gd(eos, zt, zv, zn, Contributions::Total).g;
        let frac = div_spec(wn[k - 1], sum_seq(wn));
        crate::fixed::add_spec(
            tpd_pre(eos, wt, wv, wn, zt, zv, zn, (k - 1) as nat),
            mul_spec(frac, sub_spec(gw[k - 1], gz[k - 1])),
        )
    }
}

/// The tangent-plane distance of a trial state against a candidate.
pub open spec fn tpd_spec(eos: EquationOfState, w: State, z: State) -> int {
    tpd_pre(
        eos,
        w.temperature@,
        w.volume@,
        seq_m(w.moles@),
        z.temperature@,
        z.volume@,
        seq_m(z.moles@),
        w.moles@.len(),
    )
}


/// The perturbed share of one component in a trial composition: most of
/// the amount on the probed component, the rest spread evenly, floored at
/// one least digit.
pub open spec fn probe_share(nc: nat, comp: int, q: int) -> int {
    let major = crate::fixed::div_spec(
        crate::fixed::clip(85 * crate::fixed::SCALE),
        crate::fixed::clip(100 * crate::fixed::SCALE),
    );
    let minor = crate::fixed::div_spec(
        crate::fixed::div_spec(
            crate::fixed::clip(15 * crate::fixed::SCALE),
            crate::fixed::clip(100 * crate::fixed::SCALE),
        ),
        crate::fixed::clip(nc * crate::fixed::SCALE),
    );
    let raw = if q == comp {
        major
    } else {
        minor
    };
    if raw > 0 {
        raw
    } else {
        1
    }
}

/// The near-pure trial composition toward one component.
pub open spec fn probe_w(nc: nat, comp: int) -> Seq<int> {
    Seq::new(nc, |q: int| probe_share(nc, comp, q))
}

/// The density a trial branch starts from: the branch's seed, clamped to
/// the trial composition's maximum-density estimate.
pub open spec fn probe_density(
    eos: EquationOfState,
    w: Seq<int>,
    zt: int,
    zp: int,
    branch: int,
) -> int {
    let rho_max = eos.residual.spec_max_density(w);
    let s = if branch == 0 {
        crate::solver::vapor_seed_spec(zt, zp, rho_max)
    } else {
        crate::solver::liquid_seed_spec(rho_max)
    };
    if rho_max < s {
        rho_max
    } else {
        s
    }
}

/// Whether the deterministic first probe of a searched trial branch is
/// admissible, matches the candidate's pressure within tolerance, and has
/// a tangent-plane distance at or below the negated tolerance: the least
/// instability a search must report.
pub open spec fn probe_hits(
    eos: EquationOfState,
    z: State,
    comp: int,
    branch: int,
    tol: int,
) -> bool {
    let nc = z.moles@.len();
    let w = probe_w(nc, comp);
    let zp = crate::state::pressure_spec(
        eos,
        z.temperature@,
        z.volume@,
        seq_m(z.moles@),
        Contributions::Total,
    );
    let rho = probe_density(eos, w, z.temperature@, zp, branch);
    let vol = div_spec(sum_seq(w), rho);
    &&& eos.residual.spec_max_density(w) > 0
    &&& rho > 0
    &&& vol > 0
    &&& crate::solver::fx_abs(
        sub_spec(
            crate::state::pressure_spec(eos, z.temperature@, vol, w, Contributions::Total),
            zp,
        ),
    ) <= mul_spec(tol, crate::solver::scale_ref(zp))
    &&& tpd_pre(eos, z.temperature@, vol, w, z.temperature@, z.volume@, seq_m(z.moles@), nc)
        <= crate::fixed::clip(-tol)
}

/// The tangent-plane distance of a state against itself vanishes.
pub proof fn lemma_tpd_self_zero(
    eos: EquationOfState,
    t: int,
    v: int,
    n: Seq<int>,
    k: nat,
)
    requires
        k <= n.len(),
    ensures
        tpd_pre(eos, t, v, n, t, v, n, k) == 0,
    decreases k,
{
    if k > 0 {
        lemma_tpd_self_zero(eos, t, v, n, (k - 1) as nat);
        let gw = crate::model::eos_gd(eos, t, v, n, Contributions::Total).g;
        let frac = div_spec(n[k - 1], sum_seq(n));
        assert(sub_spec(gw[k - 1], gw[k - 1]) == 0);
        assert(mul_spec(frac, 0) == 0) by {
            assert(frac * 0 == 0) by (nonlinear_arith);
        };
    }
}

impl State {
    /// The tangent-plane distance of a trial state against this candidate.
    pub fn tangent_plane_distance(&self, eos: &EquationOfState, trial: &State) -> (r: Fx)
        requires
            self.compatible(*eos),
            trial.compatible(*eos),
        ensures
            r@ == tpd_spec(*eos, *trial, *self),
    {
        let gw = eos.evaluate_grad(
            trial.temperature,
            trial.volume,
            &trial.moles,
            Contributions::Total,
        );
        let gz = eos.evaluate_grad(
            self.temperature,
            self.volume,
            &self.moles,
            Contributions::Total,
        );
        let wtot = trial.total_moles();
        let mut acc = Fx::zero();
        let mut i: usize = 0;
        while i < trial.moles.len()
            invariant
                0 <= i <= trial.moles@.len(),
                gw.g@.len() == trial.moles@.len(),
                gz.g@.len() == self.moles@.len(),
                trial.moles@.len() == self.moles@.len(),
                gw@ == eos_gd(
                    *eos,
                    trial.temperature@,
                    trial.volume@,
                    seq_m(trial.moles@),
                    Contributions::Total,
                ),
                gz@ == eos_gd(
                    *eos,
                    self.temperature@,
                    self.volume@,
                    seq_m(self.moles@),
                    Contributions::Total,
                ),
                wtot@ == sum_seq(seq_m(trial.moles@)),
                acc@ == tpd_pre(
                    *eos,
                    trial.temperature@,
                    trial.volume@,
                    seq_m(trial.moles@),
                    self.temperature@,
                    self.volume@,
                    seq_m(self.moles@),
                    i as nat,
                ),
            decreases trial.moles@.len() - i,
        {
            let frac = trial.moles[i].div(wtot);
            acc = acc.add(frac.mul(gw.g[i].sub(gz.g[i])));
            i = i + 1;
        }
        acc
    }

    /// Search for compositions whose tangent-plane distance against this
    /// state is negative beyond the tolerance. Every returned state is a
    /// resolved trial at this state's temperature with such a distance.
    fn destabilizing_states(&self, eos: &EquationOfState, options: SolverOptions) -> (r: Vec<
        State,
    >)
        requires
            eos.residual.wf(),
            self.wf(),
            self.compatible(*eos),
        ensures
            forall|k: int|
                0 <= k < r@.len() ==> {
                    &&& (#[trigger] r@[k]).wf()
                    &&& r@[k].compatible(*eos)
                    &&& r@[k].temperature == self.temperature
                    &&& tpd_spec(*eos, r@[k], *self) <= crate::fixed::clip(-options.tolerance@)
                },
            (exists|comp: int, branch: int|
                0 <= comp < self.moles@.len() && 0 <= branch < 2 && probe_hits(
                    *eos,
                    *self,
                    comp,
                    branch,
                    options.tolerance@,
                )) ==> r@.len() > 0,
    {
        let mut found: Vec<State> = Vec::new();
        let p = self.pressure(eos, Contributions::Total);
        let nc = self.moles.len();
        let lnphi_z = self.ln_phi(eos);
        let z = self.molefracs();
        let neg_tol = options.tolerance.neg();
        let tol_abs = options.tolerance.mul(crate::solver::scale_ref_fx(p));
        // Deterministic first probes of every searched branch: a probe that
        // matches the pressure and shows a negative tangent-plane distance
        // is itself a destabilizing trial.
        let mut pcomp: usize = 0;
        while pcomp < nc
            invariant
                eos.residual.wf(),
                self.wf(),
                self.compatible(*eos),
                nc == self.moles@.len(),
                p@ == crate::state::pressure_spec(
                    *eos,
                    self.temperature@,
                    self.volume@,
                    seq_m(self.moles@),
                    Contributions::Total,
                ),
                neg_tol@ == crate::fixed::clip(-options.tolerance@),
                tol_abs@ == mul_spec(options.tolerance@, crate::solver::scale_ref(p@)),
                forall|k: int|
                    0 <= k < found@.len() ==> {
                        &&& (#[trigger] found@[k]).wf()
                        &&& found@[k].compatible(*eos)
                        &&& found@[k].temperature == self.temperature
                        &&& tpd_spec(*eos, found@[k], *self) <= crate::fixed::clip(
                            -options.tolerance@,
                        )
                    },
                found@.len() == 0 ==> forall|c: int, b: int|
                    0 <= c < pcomp && 0 <= b < 2 ==> !probe_hits(
                        *eos,
                        *self,
                        c,
                        b,
                        options.tolerance@,
                    ),
            decreases nc - pcomp,
        {
            let mut pbranch: usize = 0;
            while pbranch < 2
                invariant
                    eos.residual.wf(),
                    self.wf(),
                    self.compatible(*eos),
                    nc == self.moles@.len(),
                    0 <= pcomp < nc,
                    p@ == crate::state::pressure_spec(
                        *eos,
                        self.temperature@,
                        self.volume@,
                        seq_m(self.moles@),
                        Contributions::Total,
                    ),
                    neg_tol@ == crate::fixed::clip(-options.tolerance@),
                    tol_abs@ == mul_spec(options.tolerance@, crate::solver::scale_ref(p@)),
                    forall|k: int|
                        0 <= k < found@.len() ==> {
                            &&& (#[trigger] found@[k]).wf()
                            &&& found@[k].compatible(*eos)
                            &&& found@[k].temperature == self.temperature
                            &&& tpd_spec(*eos, found@[k], *self) <= crate::fixed::clip(
                                -options.tolerance@,
                            )
                        },
                    found@.len() == 0 ==> forall|c: int, b: int|
                        0 <= c < pcomp && 0 <= b < 2 ==> !probe_hits(
                            *eos,
                            *self,
                            c,
                            b,
                            options.tolerance@,
                        ),
                    found@.len() == 0 ==> forall|b: int|
                        0 <= b < pbranch ==> !probe_hits(
                            *eos,
                            *self,
                            pcomp as int,
                            b,
                            options.tolerance@,
                        ),
                decreases 2 - pbranch,
            {
                let mut w: Vec<Fx> = Vec::new();
                let mut b: usize = 0;
                while b < nc
                    invariant
                        0 <= b <= nc,
                        0 <= pcomp < nc,
                        w@.len() == b,
                        forall|q: int| 0 <= q < b ==> (#[trigger] w@[q])@ > 0,
                        forall|q: int|
                            0 <= q < b ==> (#[trigger] w@[q])@ == probe_share(
                                nc as nat,
                                pcomp as int,
                                q,
                            ),
                    decreases nc - b,
                {
                    let share = if b == pcomp {
                        Fx::from_ratio(85, 100)
                    } else {
                        Fx::from_ratio(15, 100).div(Fx::from_usize(nc))
                    };
                    if share.is_pos() {
                        w.push(share);
                    } else {
                        w.push(Fx { m: 1 });
                    }
                    b = b + 1;
                }
                proof {
                    assert(seq_m(w@) =~= probe_w(nc as nat, pcomp as int));
                }
                let wtot = crate::model::sum_fx(&w);
                proof {
                    crate::stability::lemma_sum_pos(seq_m(w@), nc as nat);
                }
                let rho_max = eos.residual.compute_max_density(&w);
                if rho_max.is_pos() {
                    let s0 = if pbranch == 0 {
                        crate::solver::vapor_seed(self.temperature, p, rho_max)
                    } else {
                        crate::solver::liquid_seed(rho_max)
                    };
                    let rho = if rho_max.lt(s0) {
                        rho_max
                    } else {
                        s0
                    };
                    if rho.is_pos() {
                        let vol = wtot.div(rho);
                        if vol.is_pos() {
                            let st_p = State {
                                temperature: self.temperature,
                                volume: vol,
                                moles: w,
                            };
                            let pp = st_p.pressure(eos, Contributions::Total);
                            if pp.sub(p).abs().le(tol_abs) {
                                let tm = self.tangent_plane_distance(eos, &st_p);
                                if tm.le(neg_tol) {
                                    proof {
                                        assert forall|q: int|
                                            0 <= q < st_p.moles@.len() implies (
                                        #[trigger] st_p.moles@[q])@ >= 0 by {
                                            assert(st_p.moles@[q]@ == probe_share(
                                                nc as nat,
                                                pcomp as int,
                                                q,
                                            ));
                                        };
                                    }
                                    found.push(st_p);
                                }
                            }
                        }
                    }
                }
                pbranch = pbranch + 1;
            }
            pcomp = pcomp + 1;
        }
        let mut comp: usize = 0;
        while comp < nc
            invariant
                eos.residual.wf(),
                self.wf(),
                self.compatible(*eos),
                nc == self.moles@.len(),
                z@.len() == nc,
                lnphi_z@.len() == nc,
                neg_tol@ == crate::fixed::clip(-options.tolerance@),
                forall|k: int|
                    0 <= k < found@.len() ==> {
                        &&& (#[trigger] found@[k]).wf()
                        &&& found@[k].compatible(*eos)
                        &&& found@[k].temperature == self.temperature
                        &&& tpd_spec(*eos, found@[k], *self) <= crate::fixed::clip(
                            -options.tolerance@,
                        )
                    },
                found@.len() == 0 ==> forall|c: int, b: int|
                    0 <= c < nc && 0 <= b < 2 ==> !probe_hits(
                        *eos,
                        *self,
                        c,
                        b,
                        options.tolerance@,
                    ),
            decreases nc - comp,
        {
            let mut branch: usize = 0;
            while branch < 2
                invariant
                    eos.residual.wf(),
                    self.wf(),
                    self.compatible(*eos),
                    nc == self.moles@.len(),
                    z@.len() == nc,
                    lnphi_z@.len() == nc,
                    0 <= comp < nc,
                    neg_tol@ == crate::fixed::clip(-options.tolerance@),
                    forall|k: int|
                        0 <= k < found@.len() ==> {
                            &&& (#[trigger] found@[k]).wf()
                            &&& found@[k].compatible(*eos)
                            &&& found@[k].temperature == self.temperature
                            &&& tpd_spec(*eos, found@[k], *self) <= crate::fixed::clip(
                                -options.tolerance@,
                            )
                        },
                    found@.len() == 0 ==> forall|c: int, b: int|
                        0 <= c < nc && 0 <= b < 2 ==> !probe_hits(
                            *eos,
                            *self,
                            c,
                            b,
                            options.tolerance@,
                        ),
                decreases 2 - branch,
            {
                let hint = if branch == 0 {
                    DensityInitialization::Vapor
                } else {
                    DensityInitialization::Liquid
                };
                // A near-pure perturbation toward this component.
                let mut w: Vec<Fx> = Vec::new();
                let mut b: usize = 0;
                while b < nc
                    invariant
                        0 <= b <= nc,
                        w@.len() == b,
                        forall|q: int| 0 <= q < b ==> (#[trigger] w@[q])@ > 0,
                    decreases nc - b,
                {
                    let share = if b == comp {
                        Fx::from_ratio(85, 100)
                    } else {
                        Fx::from_ratio(15, 100).div(Fx::from_usize(nc))
                    };
                    if share.is_pos() {
                        w.push(share);
                    } else {
                        w.push(Fx { m: 1 });
                    }
                    b = b + 1;
                }
                // Successive substitution toward a stationary composition.
                let mut it: usize = 0;
                while it < options.max_iterations
                    invariant
                        eos.residual.wf(),
                        self.wf(),
                        self.compatible(*eos),
                        nc == self.moles@.len(),
                        z@.len() == nc,
                        lnphi_z@.len() == nc,
                        0 <= comp < nc,
                        w@.len() == nc,
                        neg_tol@ == crate::fixed::clip(-options.tolerance@),
                        forall|q: int| 0 <= q < nc ==> (#[trigger] w@[q])@ > 0,
                        forall|k: int|
                            0 <= k < found@.len() ==> {
                                &&& (#[trigger] found@[k]).wf()
                                &&& found@[k].compatible(*eos)
                                &&& found@[k].temperature == self.temperature
                                &&& tpd_spec(*eos, found@[k], *self) <= crate::fixed::clip(
                                    -options.tolerance@,
                                )
                            },
                        found@.len() == 0 ==> forall|c: int, b: int|
                            0 <= c < nc && 0 <= b < 2 ==> !probe_hits(
                                *eos,
                                *self,
                                c,
                                b,
                                options.tolerance@,
                            ),
                    decreases options.max_iterations - it,
                {
                    proof {
                        assert(moles_ok(seq_m(w@))) by {
                            assert forall|q: int| 0 <= q < seq_m(w@).len() implies #[trigger] seq_m(
                                w@,
                            )[q] >= 0 by {
                                assert(seq_m(w@)[q] == w@[q]@);
                            };
                            if seq_m(w@).len() > 0 {
                                crate::stability::lemma_sum_pos(seq_m(w@), nc as nat);
                            }
                        };
                    }
                    let trial = match resolve_density(eos, self.temperature, p, &w, hint, options) {
                        Ok(st) => st,
                        Err(_) => {
                            break ;
                        },
                    };
                    let tm = self.tangent_plane_distance(eos, &trial);
                    if tm.le(neg_tol) {
                        found.push(trial);
                        break ;
                    }
                    // Update the trial composition from the fugacities.
                    let lnphi_w = trial.ln_phi(eos);
                    let mut w_new: Vec<Fx> = Vec::new();
                    let mut q: usize = 0;
                    let mut unchanged: bool = true;
                    while q < nc
                        invariant
                            0 <= q <= nc,
                            nc == self.moles@.len(),
                            z@.len() == nc,
                            lnphi_z@.len() == nc,
                            lnphi_w@.len() == nc,
                            w@.len() == nc,
                            w_new@.len() == q,
                            forall|b2: int| 0 <= b2 < q ==> (#[trigger] w_new@[b2])@ > 0,
                        decreases nc - q,
                    {
                        let d = crate::transcend::ln_fx(z[q]).add(lnphi_z[q]);
                        let cand = crate::transcend::exp_fx(d.sub(lnphi_w[q]));
                        let next = if cand.is_pos() {
                            cand
                        } else {
                            Fx { m: 1 }
                        };
                        if !next.sub(w[q]).abs().le(options.tolerance) {
                            unchanged = false;
                        }
                        w_new.push(next);
                        q = q + 1;
                    }
                    w = w_new;
                    if unchanged {
                        break ;
                    }
                    it = it + 1;
                }
                branch = branch + 1;
            }
            comp = comp + 1;
        }
        found
    }

    /// Tangent-plane stability analysis: the locally stable phases found
    /// around this state. A state with no destabilizing direction is
    /// returned alone; otherwise every returned state is a trial at this
    /// temperature whose tangent-plane distance is negative beyond the
    /// tolerance.
    pub fn stability_analysis(&self, eos: &EquationOfState, options: SolverOptions) -> (r: Result<
        Vec<State>,
        EosError,
    >)
        requires
            eos.residual.wf(),
            self.wf(),
            self.compatible(*eos),
        ensures
            match r {
                Ok(v) => {
                    &&& v@.len() >= 1
                    &&& forall|k: int|
                        0 <= k < v@.len() ==> (#[trigger] v@[k]).wf() && v@[k].compatible(*eos)
                            && v@[k].temperature == self.temperature
                    &&& (v@.len() == 1 && v@[0].volume == self.volume && v@[0].moles@
                        == self.moles@) || (forall|k: int|
                        0 <= k < v@.len() ==> tpd_spec(*eos, #[trigger] v@[k], *self)
                            <= crate::fixed::clip(-options.tolerance@))
                    &&& (options.tolerance@ > 0 && (exists|comp: int, branch: int|
                        0 <= comp < self.moles@.len() && 0 <= branch < 2 && probe_hits(
                            *eos,
                            *self,
                            comp,
                            branch,
                            options.tolerance@,
                        ))) ==> !(v@.len() == 1 && v@[0].temperature == self.temperature
                        && v@[0].volume == self.volume && v@[0].moles@ == self.moles@)
                },
                Err(_) => false,
            },
    {
        let found = self.destabilizing_states(eos, options);
        if found.len() == 0 {
            let mut out: Vec<State> = Vec::new();
            out.push(
                State {
                    temperature: self.temperature,
                    volume: self.volume,
                    moles: crate::state::clone_fx_vec(&self.moles),
                },
            );
            Ok(out)
        } else {
            proof {
                if options.tolerance@ > 0 && found@.len() == 1 && found@[0].temperature
                    == self.temperature && found@[0].volume == self.volume && found@[0].moles@
                    == self.moles@ {
                    lemma_tpd_self_zero(
                        *eos,
                        self.temperature@,
                        self.volume@,
                        seq_m(self.moles@),
                        self.moles@.len(),
                    );
                    assert(tpd_spec(*eos, found@[0], *self) == 0);
                    assert(false);
                }
            }
            Ok(found)
        }
    }

    /// Whether no destabilizing composition was found: a false answer
    /// comes with a composition whose tangent-plane distance is negative
    /// beyond the tolerance.
    pub fn is_stable(&self, eos: &EquationOfState, options: SolverOptions) -> (r: Result<
        bool,
        EosError,
    >)
        requires
            eos.residual.wf(),
            self.wf(),
            self.compatible(*eos),
        ensures
            match r {
                Ok(b) => !b ==> exists|w: State|
                    w.wf() && w.compatible(*eos) && tpd_spec(*eos, w, *self)
                        <= crate::fixed::clip(-options.tolerance@),
                Err(_) => false,
            },
            r == Ok::<bool, EosError>(true) ==> forall|comp: int, branch: int|
                0 <= comp < self.moles@.len() && 0 <= branch < 2 ==> !probe_hits(
                    *eos,
                    *self,
                    comp,
                    branch,
                    options.tolerance@,
                ),
    {
        let found = self.destabilizing_states(eos, options);
        if found.len() == 0 {
            Ok(true)
        } else {
            proof {
                assert(found@[0].wf() && found@[0].compatible(*eos) && tpd_spec(
                    *eos,
                    found@[0],
                    *self,
                ) <= crate::fixed::clip(-options.tolerance@));
            }
            Ok(false)
        }
    }
}

/// A sequence of positive entries has a positive saturating sum.
pub proof fn lemma_sum_pos(s: Seq<int>, k: nat)
    requires
        k <= s.len(),
        k >= 1,
        forall|q: int| 0 <= q < s.len() ==> #[trigger] s[q] > 0,
    ensures
        crate::model::sum_pre(s, k) > 0,
    decreases k,
{
    if k > 1 {
        lemma_sum_pos(s, (k - 1) as nat);
        assert(crate::model::sum_pre(s, k) == crate::fixed::add_spec(
            crate::model::sum_pre(s, (k - 1) as nat),
            s[k - 1],
        ));
    } else {
        assert(crate::model::sum_pre(s, 1) == crate::fixed::add_spec(
            crate::model::sum_pre(s, 0),
            s[0],
        ));
        assert(crate::model::sum_pre(s, 0) == 0);
    }
}

} // verus!
