//! Parameter-estimation support: data sets compared against an equation of
//! state, with weighted, loss-adjusted cost vectors.

use vstd::prelude::*;

use crate::error::EosError;
use crate::fixed::{clip, div_spec, mul_spec, seq_m, sub_spec, Fx, SCALE};
use crate::model::{sum_seq, Contributions, EquationOfState, Residual};
use crate::state::{pressure_spec, State};

verus! {

/// A loss function applied to relative residuals.
#[derive(Clone, Copy, PartialEq, Eq, Structural, Debug)]
pub enum Loss {
    /// The identity.
    Linear,
    /// Clamp the magnitude at a threshold.
    Huber(Fx),
}

/// A loss-adjusted residual.
pub open spec fn loss_spec(l: Loss, r: int) -> int {
    match l {
        Loss::Linear => r,
        Loss::Huber(d) => if r > d@ {
            d@
        } else if r < clip(-d@) {
            clip(-d@)
        } else {
            r
        },
    }
}

impl Loss {
    /// Apply the loss to one residual.
    pub fn apply(&self, r: Fx) -> (out: Fx)
        ensures
            out@ == loss_spec(*self, r@),
    {
        match self {
            Loss::Linear => r,
            Loss::Huber(d) => {
                let nd = d.neg();
                if d.lt(r) {
                    *d
                } else if r.lt(nd) {
                    nd
                } else {
                    r
                }
            },
        }
    }
}

/// Experimental data an equation of state is held against.
pub trait DataSet: Sized {
    /// The number of data points.
    spec fn spec_datapoints(&self) -> nat;

    /// The experimental values.
    spec fn spec_target(&self) -> Seq<int>;

    /// The model's prediction for each point.
    spec fn spec_predict(&self, eos: EquationOfState) -> Result<Seq<int>, EosError>;

    /// Return the number of data points.
    fn datapoints(&self) -> (r: usize)
        ensures
            r as nat == self.spec_datapoints(),
    ;

    /// Return the experimental values.
    fn target(&self) -> (r: Vec<Fx>)
        ensures
            seq_m(r@) == self.spec_target(),
            r@.len() == self.spec_datapoints(),
    ;

    /// Compute the model's prediction for each point.
    fn predict(&self, eos: &EquationOfState) -> (r: Result<Vec<Fx>, EosError>)
        requires
            eos.residual.wf(),
        ensures
            match r {
                Ok(v) => self.spec_predict(*eos) == Ok::<Seq<int>, EosError>(seq_m(v@))
                    && v@.len() == self.spec_datapoints(),
                Err(e) => self.spec_predict(*eos) == Err::<Seq<int>, EosError>(e),
            },
    ;

    /// A short name of the predicted quantity.
    fn target_str(&self) -> String;

    /// Short names of the input quantities.
    fn input_str(&self) -> Vec<String>;
}

/// Pressures measured along isochores of a pure component: each point is a
/// temperature and a density with the measured pressure.
#[derive(Clone, Debug)]
pub struct PressureData {
    /// Temperature of each point.
    pub temperature: Vec<Fx>,
    /// Density of each point.
    pub density: Vec<Fx>,
    /// Measured pressure of each point.
    pub pressure: Vec<Fx>,
}

impl PressureData {
    /// Well-formedness: one temperature and density per measured point,
    /// all of them positive.
    pub open spec fn wf(self) -> bool {
        &&& self.temperature@.len() == self.pressure@.len()
        &&& self.density@.len() == self.pressure@.len()
        &&& forall|i: int| 0 <= i < self.temperature@.len() ==> (#[trigger] self.temperature@[i])@ > 0
        &&& forall|i: int| 0 <= i < self.temperature@.len() ==> (#[trigger] self.density@[i])@ > 0
    }

    /// Build a data set after checking its shape and domain.
    pub fn new(temperature: Vec<Fx>, density: Vec<Fx>, pressure: Vec<Fx>) -> (r: Result<
        PressureData,
        EosError,
    >)
        ensures
            match r {
                Ok(d) => {
                    &&& d.wf()
                    &&& d.temperature@ == temperature@
                    &&& d.density@ == density@
                    &&& d.pressure@ == pressure@
                },
                Err(e) => e == EosError::IncompatibleParameters || e == EosError::DomainError,
            },
            r is Ok <==> (temperature@.len() == pressure@.len() && density@.len()
                == pressure@.len() && (forall|i: int|
                0 <= i < temperature@.len() ==> (#[trigger] temperature@[i])@ > 0) && (forall|
                i: int,
            |
                0 <= i < density@.len() ==> (#[trigger] density@[i])@ > 0)),
    {
        if temperature.len() != pressure.len() || density.len() != pressure.len() {
            return Err(EosError::IncompatibleParameters);
        }
        let mut i: usize = 0;
        while i < temperature.len()
            invariant
                0 <= i <= temperature@.len(),
                density@.len() == temperature@.len(),
                forall|p: int| 0 <= p < i ==> (#[trigger] temperature@[p])@ > 0,
                forall|p: int| 0 <= p < i ==> (#[trigger] density@[p])@ > 0,
            decreases temperature@.len() - i,
        {
            if !temperature[i].is_pos() || !density[i].is_pos() {
                return Err(EosError::DomainError);
            }
            i = i + 1;
        }
        Ok(PressureData { temperature, density, pressure })
    }
}

/// The predicted pressure of one isochoric point of a pure component.
pub open spec fn point_pressure_spec(eos: EquationOfState, t: int, rho: int) -> int {
    pressure_spec(eos, t, div_spec(SCALE as int, rho), seq![SCALE as int], Contributions::Total)
}

impl DataSet for PressureData {
    open spec fn spec_datapoints(&self) -> nat {
        self.pressure@.len()
    }

    open spec fn spec_target(&self) -> Seq<int> {
        seq_m(self.pressure@)
    }

    open spec fn spec_predict(&self, eos: EquationOfState) -> Result<Seq<int>, EosError> {
        if eos.residual.spec_components() != 1 {
            Err(EosError::IncompatibleComponents(eos.residual.n_components as usize, 1))
        } else if !self.wf() {
            Err(EosError::DomainError)
        } else {
            Ok(
                Seq::new(
                    self.pressure@.len(),
                    |i: int| point_pressure_spec(eos, self.temperature@[i]@, self.density@[i]@),
                ),
            )
        }
    }

    fn datapoints(&self) -> (r: usize) {
        self.pressure.len()
    }

    fn target(&self) -> (r: Vec<Fx>) {
        let r = crate::state::clone_fx_vec(&self.pressure);
        r
    }

    fn predict(&self, eos: &EquationOfState) -> (r: Result<Vec<Fx>, EosError>) {
        if eos.residual.n_components != 1 {
            return Err(EosError::IncompatibleComponents(eos.residual.n_components, 1));
        }
        if self.temperature.len() != self.pressure.len() || self.density.len()
            != self.pressure.len() {
            return Err(EosError::DomainError);
        }
        let mut i: usize = 0;
        let mut out: Vec<Fx> = Vec::new();
        while i < self.pressure.len()
            invariant
                eos.residual.spec_components() == 1,
                eos.residual.wf(),
                0 <= i <= self.pressure@.len(),
                self.temperature@.len() == self.pressure@.len(),
                self.density@.len() == self.pressure@.len(),
                forall|p: int| 0 <= p < i ==> (#[trigger] self.temperature@[p])@ > 0,
                forall|p: int| 0 <= p < i ==> (#[trigger] self.density@[p])@ > 0,
                out@.len() == i,
                forall|p: int|
                    0 <= p < i ==> (#[trigger] out@[p])@ == point_pressure_spec(
                        *eos,
                        self.temperature@[p]@,
                        self.density@[p]@,
                    ),
            decreases self.pressure@.len() - i,
        {
            if !self.temperature[i].is_pos() || !self.density[i].is_pos() {
                return Err(EosError::DomainError);
            }
            let mut moles: Vec<Fx> = Vec::new();
            moles.push(Fx::one());
            let st = State {
                temperature: self.temperature[i],
                volume: Fx::one().div(self.density[i]),
                moles,
            };
            proof {
                assert(seq_m(st.moles@) =~= seq![SCALE as int]);
            }
            let p = st.pressure(eos, Contributions::Total);
            out.push(p);
            i = i + 1;
        }
        proof {
            assert(seq_m(out@) =~= Seq::new(
                self.pressure@.len(),
                |i: int| point_pressure_spec(*eos, self.temperature@[i]@, self.density@[i]@),
            ));
        }
        Ok(out)
    }

    fn target_str(&self) -> (r: String) {
        String::from_str("pressure")
    }

    fn input_str(&self) -> (r: Vec<String>) {
        let mut v: Vec<String> = Vec::new();
        v.push(String::from_str("temperature"));
        v.push(String::from_str("density"));
        v
    }
}

/// The relative difference of a prediction against its target.
pub open spec fn rel_diff_spec(pred: int, target: int) -> int {
    div_spec(sub_spec(pred, target), target)
}

/// Element-wise relative differences.
pub fn rel_diff_vec(pred: &Vec<Fx>, target: &Vec<Fx>) -> (r: Vec<Fx>)
    requires
        pred@.len() == target@.len(),
    ensures
        r@.len() == pred@.len(),
        forall|i: int|
            0 <= i < r@.len() ==> (#[trigger] r@[i])@ == rel_diff_spec(pred@[i]@, target@[i]@),
{
    let mut out: Vec<Fx> = Vec::new();
    let mut i: usize = 0;
    while i < pred.len()
        invariant
            0 <= i <= pred@.len(),
            pred@.len() == target@.len(),
            out@.len() == i,
            forall|p: int|
                0 <= p < i ==> (#[trigger] out@[p])@ == rel_diff_spec(pred@[p]@, target@[p]@),
        decreases pred@.len() - i,
    {
        out.push(pred[i].sub(target[i]).div(target[i]));
        i = i + 1;
    }
    out
}

/// The loss-adjusted, normalized cost vector of one data set.
pub open spec fn cost_of<D: DataSet>(d: D, eos: EquationOfState, loss: Loss, wn: int) -> Seq<
    int,
> {
    match d.spec_predict(eos) {
        Ok(p) => Seq::new(
            p.len(),
            |i: int| mul_spec(loss_spec(loss, rel_diff_spec(p[i], d.spec_target()[i])), wn),
        ),
        Err(_) => Seq::empty(),
    }
}

/// The concatenated cost vectors of the first `k` data sets.
pub open spec fn costs_pre<D: DataSet>(
    data: Seq<D>,
    weights: Seq<int>,
    losses: Seq<Loss>,
    eos: EquationOfState,
    wsum: int,
    k: nat,
) -> Seq<int>
    decreases k,
{
    if k == 0 {
        Seq::empty()
    } else {
        costs_pre(data, weights, losses, eos, wsum, (k - 1) as nat) + cost_of(
            data[k - 1],
            eos,
            losses[k - 1],
            div_spec(weights[k - 1], wsum),
        )
    }
}


/// Whether every data set's prediction succeeds.
pub open spec fn all_predict_ok<D: DataSet>(data: Seq<D>, eos: EquationOfState) -> bool {
    forall|k: int| 0 <= k < data.len() ==> (#[trigger] data[k]).spec_predict(eos) is Ok
}

/// An error is the first prediction error: every data set before it
/// predicts, and the one at the witness fails with exactly this error.
pub open spec fn first_predict_err<D: DataSet>(
    data: Seq<D>,
    eos: EquationOfState,
    e: EosError,
) -> bool {
    exists|k: int|
        0 <= k < data.len() && (forall|p: int|
            0 <= p < k ==> (#[trigger] data[p]).spec_predict(eos) is Ok) && (
        #[trigger] data[k]).spec_predict(eos) == Err::<Seq<int>, EosError>(e)
}

/// The element-wise relative differences of a prediction sequence.
pub open spec fn rel_diff_seq(p: Seq<int>, t: Seq<int>) -> Seq<int> {
    Seq::new(p.len(), |i: int| rel_diff_spec(p[i], t[i]))
}

/// The running sum of absolute values of a residual sequence.
pub open spec fn abs_sum_pre(s: Seq<int>, k: nat) -> int
    decreases k,
{
    if k == 0 {
        0
    } else {
        crate::fixed::add_spec(abs_sum_pre(s, (k - 1) as nat), crate::solver::fx_abs(s[k - 1]))
    }
}

/// The mean absolute value of a residual sequence; zero for an empty one.
pub open spec fn mard_of(rd: Seq<int>) -> int {
    if rd.len() == 0 {
        0
    } else {
        div_spec(abs_sum_pre(rd, rd.len()), clip(rd.len() * SCALE))
    }
}

/// A collection of data sets with weights and losses, evaluated together
/// against an equation of state.
pub struct Estimator<D: DataSet> {
    /// The data sets.
    pub data: Vec<D>,
    /// The weight of each data set.
    pub weights: Vec<Fx>,
    /// The loss of each data set.
    pub losses: Vec<Loss>,
}

impl<D: DataSet> Estimator<D> {
    /// Consistency: one weight and loss per data set.
    pub open spec fn wf(self) -> bool {
        &&& self.weights@.len() == self.data@.len()
        &&& self.losses@.len() == self.data@.len()
    }

    /// Pack data sets with their weights and losses.
    pub fn new(data: Vec<D>, weights: Vec<Fx>, losses: Vec<Loss>) -> (r: Estimator<D>)
        ensures
            r.data@ == data@,
            r.weights@ == weights@,
            r.losses@ == losses@,
    {
        Estimator { data, weights, losses }
    }

    /// Add a data set with its weight and loss.
    pub fn add_data(&mut self, data: D, weight: Fx, loss: Loss)
        ensures
            final (self).data@ == old(self).data@.push(data),
            final (self).weights@ == old(self).weights@.push(weight),
            final (self).losses@ == old(self).losses@.push(loss),
    {
        self.data.push(data);
        self.weights.push(weight);
        self.losses.push(loss);
    }

    /// The stored data sets.
    pub fn datasets(&self) -> (r: &Vec<D>)
        ensures
            r == &self.data,
    {
        &self.data
    }

    /// The loss-adjusted, weight-normalized cost of every data point,
    /// concatenated over the data sets in order. Each data set's weight is
    /// normalized by the sum of all weights.
    pub fn cost(&self, eos: &EquationOfState) -> (r: Result<Vec<Fx>, EosError>)
        requires
            eos.residual.wf(),
            self.wf(),
        ensures
            r matches Ok(v) ==> seq_m(v@) == costs_pre(
                self.data@,
                seq_m(self.weights@),
                self.losses@,
                *eos,
                sum_seq(seq_m(self.weights@)),
                self.data@.len(),
            ),
            r is Ok <==> all_predict_ok(self.data@, *eos),
            r matches Err(e) ==> first_predict_err(self.data@, *eos, e),
    {
        let wsum = crate::model::sum_fx(&self.weights);
        let mut out: Vec<Fx> = Vec::new();
        let mut k: usize = 0;
        while k < self.data.len()
            invariant
                eos.residual.wf(),
                self.wf(),
                0 <= k <= self.data@.len(),
                wsum@ == sum_seq(seq_m(self.weights@)),
                forall|p: int|
                    0 <= p < k ==> (#[trigger] self.data@[p]).spec_predict(*eos) is Ok,
                seq_m(out@) == costs_pre(
                    self.data@,
                    seq_m(self.weights@),
                    self.losses@,
                    *eos,
                    wsum@,
                    k as nat,
                ),
            decreases self.data@.len() - k,
        {
            let pred = match self.data[k].predict(eos) {
                Ok(p) => p,
                Err(e) => {
                    proof {
                        assert(0 <= k < self.data@.len() && (forall|p: int|
                            0 <= p < k ==> (#[trigger] self.data@[p]).spec_predict(*eos) is Ok)
                            && self.data@[k as int].spec_predict(*eos) == Err::<
                            Seq<int>,
                            EosError,
                        >(e));
                    }
                    return Err(e);
                },
            };
            let target = self.data[k].target();
            let rd = rel_diff_vec(&pred, &target);
            let w = self.weights[k].div(wsum);
            let loss = self.losses[k];
            let ghost before = out@;
            let mut j: usize = 0;
            while j < rd.len()
                invariant
                    0 <= k < self.data@.len(),
                    0 <= j <= rd@.len(),
                    self.wf(),
                    rd@.len() == pred@.len(),
                    pred@.len() == target@.len(),
                    self.data@[k as int].spec_predict(*eos) == Ok::<Seq<int>, EosError>(
                        seq_m(pred@),
                    ),
                    seq_m(target@) == self.data@[k as int].spec_target(),
                    forall|q: int|
                        0 <= q < rd@.len() ==> (#[trigger] rd@[q])@ == rel_diff_spec(
                            pred@[q]@,
                            target@[q]@,
                        ),
                    w@ == div_spec(seq_m(self.weights@)[k as int], wsum@),
                    loss == self.losses@[k as int],
                    out@.len() == before.len() + j,
                    seq_m(out@) == seq_m(before) + cost_of(
                        self.data@[k as int],
                        *eos,
                        loss,
                        w@,
                    ).subrange(0, j as int),
                decreases rd@.len() - j,
            {
                let ghost prev = out@;
                out.push(loss.apply(rd[j]).mul(w));
                proof {
                    let co = cost_of(self.data@[k as int], *eos, loss, w@);
                    assert(seq_m(pred@)[j as int] == pred@[j as int]@);
                    assert(self.data@[k as int].spec_target()[j as int] == seq_m(target@)[j as int]);
                    assert(seq_m(target@)[j as int] == target@[j as int]@);
                    assert(co[j as int] == mul_spec(
                        loss_spec(loss, rel_diff_spec(pred@[j as int]@, target@[j as int]@)),
                        w@,
                    ));
                    assert(out@ == prev.push(out@[prev.len() as int]));
                    assert(seq_m(out@) =~= seq_m(prev).push(out@[prev.len() as int]@));
                    assert(co.subrange(0, j + 1) =~= co.subrange(0, j as int).push(co[j as int]));
                    assert(seq_m(out@) =~= seq_m(before) + co.subrange(0, j + 1));
                }
                j = j + 1;
            }
            proof {
                let co = cost_of(self.data@[k as int], *eos, loss, w@);
                assert(co.subrange(0, co.len() as int) =~= co);
            }
            k = k + 1;
        }
        Ok(out)
    }

    /// The model's predictions for every data set.
    pub fn predict(&self, eos: &EquationOfState) -> (r: Result<Vec<Vec<Fx>>, EosError>)
        requires
            eos.residual.wf(),
        ensures
            match r {
                Ok(v) => {
                    &&& v@.len() == self.data@.len()
                    &&& forall|k: int|
                        0 <= k < v@.len() ==> (#[trigger] self.data@[k]).spec_predict(*eos) == Ok::<
                            Seq<int>,
                            EosError,
                        >(seq_m(v@[k]@))
                },
                Err(e) => first_predict_err(self.data@, *eos, e),
            },
            r is Ok <==> all_predict_ok(self.data@, *eos),
    {
        let mut out: Vec<Vec<Fx>> = Vec::new();
        let mut k: usize = 0;
        while k < self.data.len()
            invariant
                eos.residual.wf(),
                0 <= k <= self.data@.len(),
                out@.len() == k,
                forall|p: int|
                    0 <= p < k ==> (#[trigger] self.data@[p]).spec_predict(*eos) == Ok::<
                        Seq<int>,
                        EosError,
                    >(seq_m(out@[p]@)),
            decreases self.data@.len() - k,
        {
            let pred = match self.data[k].predict(eos) {
                Ok(p) => p,
                Err(e) => {
                    proof {
                        assert(0 <= k < self.data@.len() && (forall|p: int|
                            0 <= p < k ==> (#[trigger] self.data@[p]).spec_predict(*eos) is Ok)
                            && self.data@[k as int].spec_predict(*eos) == Err::<
                            Seq<int>,
                            EosError,
                        >(e));
                    }
                    return Err(e);
                },
            };
            out.push(pred);
            k = k + 1;
        }
        Ok(out)
    }

    /// The relative difference of every prediction against its target,
    /// per data set in stored order.
    pub fn relative_difference(&self, eos: &EquationOfState) -> (r: Result<Vec<Vec<Fx>>, EosError>)
        requires
            eos.residual.wf(),
        ensures
            match r {
                Ok(v) => {
                    &&& v@.len() == self.data@.len()
                    &&& forall|k: int|
                        0 <= k < v@.len() ==> ((#[trigger] self.data@[k]).spec_predict(*eos)
                            matches Ok(pp) && seq_m(v@[k]@) == rel_diff_seq(
                            pp,
                            self.data@[k].spec_target(),
                        ))
                },
                Err(e) => first_predict_err(self.data@, *eos, e),
            },
            r is Ok <==> all_predict_ok(self.data@, *eos),
    {
        let mut out: Vec<Vec<Fx>> = Vec::new();
        let mut k: usize = 0;
        while k < self.data.len()
            invariant
                eos.residual.wf(),
                0 <= k <= self.data@.len(),
                out@.len() == k,
                forall|p: int|
                    0 <= p < k ==> ((#[trigger] self.data@[p]).spec_predict(*eos) matches Ok(pp)
                        && seq_m(out@[p]@) == rel_diff_seq(pp, self.data@[p].spec_target())),
            decreases self.data@.len() - k,
        {
            let pred = match self.data[k].predict(eos) {
                Ok(p) => p,
                Err(e) => {
                    proof {
                        assert(0 <= k < self.data@.len() && (forall|p: int|
                            0 <= p < k ==> (#[trigger] self.data@[p]).spec_predict(*eos) is Ok)
                            && self.data@[k as int].spec_predict(*eos) == Err::<
                            Seq<int>,
                            EosError,
                        >(e));
                    }
                    return Err(e);
                },
            };
            let target = self.data[k].target();
            let rd = rel_diff_vec(&pred, &target);
            proof {
                assert(seq_m(rd@) =~= rel_diff_seq(
                    seq_m(pred@),
                    self.data@[k as int].spec_target(),
                ));
            }
            out.push(rd);
            k = k + 1;
        }
        Ok(out)
    }

    /// The mean absolute relative difference of each data set, in stored
    /// order.
    pub fn mean_absolute_relative_difference(&self, eos: &EquationOfState) -> (r: Result<
        Vec<Fx>,
        EosError,
    >)
        requires
            eos.residual.wf(),
        ensures
            match r {
                Ok(v) => {
                    &&& v@.len() == self.data@.len()
                    &&& forall|k: int|
                        0 <= k < v@.len() ==> ((#[trigger] self.data@[k]).spec_predict(*eos)
                            matches Ok(pp) && v@[k]@ == mard_of(
                            rel_diff_seq(pp, self.data@[k].spec_target()),
                        ))
                },
                Err(e) => first_predict_err(self.data@, *eos, e),
            },
            r is Ok <==> all_predict_ok(self.data@, *eos),
    {
        let mut out: Vec<Fx> = Vec::new();
        let mut k: usize = 0;
        while k < self.data.len()
            invariant
                eos.residual.wf(),
                0 <= k <= self.data@.len(),
                out@.len() == k,
                forall|p: int|
                    0 <= p < k ==> ((#[trigger] self.data@[p]).spec_predict(*eos) matches Ok(pp)
                        && out@[p]@ == mard_of(rel_diff_seq(pp, self.data@[p].spec_target()))),
            decreases self.data@.len() - k,
        {
            let pred = match self.data[k].predict(eos) {
                Ok(p) => p,
                Err(e) => {
                    proof {
                        assert(0 <= k < self.data@.len() && (forall|p: int|
                            0 <= p < k ==> (#[trigger] self.data@[p]).spec_predict(*eos) is Ok)
                            && self.data@[k as int].spec_predict(*eos) == Err::<
                            Seq<int>,
                            EosError,
                        >(e));
                    }
                    return Err(e);
                },
            };
            let target = self.data[k].target();
            let rd = rel_diff_vec(&pred, &target);
            proof {
                assert(seq_m(rd@) =~= rel_diff_seq(
                    seq_m(pred@),
                    self.data@[k as int].spec_target(),
                ));
            }
            let mut acc = Fx::zero();
            let mut j: usize = 0;
            while j < rd.len()
                invariant
                    0 <= j <= rd@.len(),
                    acc@ == abs_sum_pre(seq_m(rd@), j as nat),
                decreases rd@.len() - j,
            {
                proof {
                    assert(seq_m(rd@)[j as int] == rd@[j as int]@);
                }
                acc = acc.add(rd[j].abs());
                j = j + 1;
            }
            let n = rd.len();
            if n == 0 {
                out.push(Fx::zero());
            } else {
                out.push(acc.div(Fx::from_usize(n)));
            }
            k = k + 1;
        }
        Ok(out)
    }
}

} // verus!
