use feos::estimator::{DataSet, Estimator, Loss, PressureData};
use feos::fixed::Fx;
use feos::model::{
    Contribution, Contributions, EquationOfState, IdealGasModel, ResidualModel,
};
use feos::state::State;

fn fx(num: i64, den: i64) -> Fx {
    Fx::from_ratio(num, den)
}

fn model(a_num: i64) -> EquationOfState {
    let b = vec![fx(1, 10)];
    let a = vec![fx(a_num, 8)];
    let k_ij = vec![vec![Fx::zero()]];
    let contributions = vec![
        Contribution::HardSphere { b },
        Contribution::mean_field(&a, &k_ij),
    ];
    EquationOfState::new(
        ResidualModel::new(1, contributions, None).unwrap(),
        IdealGasModel::UnitWavelength,
    )
}

fn dataset(eos: &EquationOfState) -> PressureData {
    // Measured pressures generated from the reference model itself.
    let temperature = vec![Fx::from_int(12), Fx::from_int(15)];
    let density = vec![fx(1, 2), fx(1, 4)];
    let mut pressure = Vec::new();
    for i in 0..2 {
        let st = State::new_nvt(
            eos,
            temperature[i],
            Fx::one().div(density[i]),
            None,
        )
        .unwrap();
        pressure.push(st.pressure(eos, Contributions::Total));
    }
    PressureData::new(temperature, density, pressure).unwrap()
}

#[test]
fn loss_functions() {
    assert_eq!(Loss::Linear.apply(fx(3, 2)), fx(3, 2));
    let huber = Loss::Huber(Fx::one());
    assert_eq!(huber.apply(fx(3, 2)), Fx::one());
    assert_eq!(huber.apply(fx(-3, 2)), Fx::one().neg());
    assert_eq!(huber.apply(fx(1, 2)), fx(1, 2));
}

#[test]
fn cost_vanishes_on_the_generating_model() {
    let eos = model(27);
    let data = dataset(&eos);
    let est = Estimator::new(vec![data], vec![Fx::one()], vec![Loss::Linear]);
    let cost = est.cost(&eos).unwrap();
    assert_eq!(cost.len(), 2);
    for c in &cost {
        assert!(c.abs().m < 1 << 12, "cost = {:?}", c);
    }
    let mard = est.mean_absolute_relative_difference(&eos).unwrap();
    assert!(mard[0].abs().m < 1 << 12);
}

#[test]
fn cost_detects_a_wrong_model() {
    let truth = model(27);
    let wrong = model(40);
    let data = dataset(&truth);
    let est = Estimator::new(vec![data], vec![Fx::one()], vec![Loss::Linear]);
    let cost = est.cost(&wrong).unwrap();
    let total: i64 = cost.iter().map(|c| c.abs().m).sum();
    assert!(total > 1 << 20, "total cost = {}", total);
}

#[test]
fn estimator_bookkeeping() {
    let eos = model(27);
    let d1 = dataset(&eos);
    let mut est = Estimator::new(vec![], vec![], vec![]);
    est.add_data(d1, Fx::one(), Loss::Linear);
    assert_eq!(est.datasets().len(), 1);
    assert_eq!(est.datasets()[0].datapoints(), 2);
    let pred = est.predict(&eos).unwrap();
    assert_eq!(pred.len(), 1);
    assert_eq!(pred[0].len(), 2);
    let rd = est.relative_difference(&eos).unwrap();
    assert!(rd[0][0].abs().m < 1 << 12);
}

#[test]
fn first_prediction_error_is_propagated() {
    // A pure-component data set against a binary model: prediction fails
    // with the exact component-count error, and so does every aggregate.
    let truth = model(27);
    let data = dataset(&truth);
    let est = Estimator::new(vec![data], vec![Fx::one()], vec![Loss::Linear]);
    let b = vec![fx(1, 10), fx(1, 10)];
    let a = vec![fx(27, 8), fx(27, 8)];
    let k_ij = vec![vec![Fx::zero(), Fx::zero()], vec![Fx::zero(), Fx::zero()]];
    let contributions = vec![
        Contribution::HardSphere { b },
        Contribution::mean_field(&a, &k_ij),
    ];
    let binary = EquationOfState::new(
        ResidualModel::new(2, contributions, None).unwrap(),
        IdealGasModel::UnitWavelength,
    );
    let expected = feos::error::EosError::IncompatibleComponents(2, 1);
    assert_eq!(est.cost(&binary).unwrap_err(), expected);
    assert_eq!(est.predict(&binary).unwrap_err(), expected);
    assert_eq!(est.relative_difference(&binary).unwrap_err(), expected);
    assert_eq!(
        est.mean_absolute_relative_difference(&binary).unwrap_err(),
        expected
    );
}
