use feos::error::EosError;
use feos::fixed::{Fx, SCALE};
use feos::pcsaft::{
    Identifier, PcSaftBinaryRecord, PcSaftParameters, PcSaftRecord, PureRecord,
};

fn fx(num: i64, den: i64) -> Fx {
    Fx::from_ratio(num, den)
}

fn close(a: Fx, b: Fx, tol_ulps: i64) -> bool {
    (a.m - b.m).abs() <= tol_ulps
}

fn identifier(name: &str) -> Identifier {
    Identifier {
        cas: None,
        name: Some(name.to_string()),
        iupac_name: None,
        smiles: None,
        inchi: None,
        formula: None,
    }
}

fn record(m: Fx, sigma: Fx, epsilon_k: Fx, mu: Option<Fx>, q: Option<Fx>) -> PcSaftRecord {
    PcSaftRecord::new(
        m, sigma, epsilon_k, mu, q, None, None, None, None, None, vec![], None, None, None,
    )
}

fn propane_like() -> PureRecord {
    PureRecord {
        identifier: identifier("propane"),
        molarweight: fx(440962, 10000),
        model_record: record(fx(2001829, 1000000), fx(3618353, 1000000), fx(2081101, 10000), None, None),
    }
}

fn co2_like() -> PureRecord {
    PureRecord {
        identifier: identifier("carbon-dioxide"),
        molarweight: fx(440098, 10000),
        model_record: record(fx(15131, 10000), fx(31869, 10000), fx(163333, 1000), None, Some(fx(44, 10))),
    }
}

fn dme_like() -> PureRecord {
    PureRecord {
        identifier: identifier("dimethyl-ether"),
        molarweight: fx(460688, 10000),
        model_record: record(fx(22634, 10000), fx(32723, 10000), fx(21029, 100), Some(fx(13, 10)), None),
    }
}

#[test]
fn record_new_appends_flat_association() {
    let rec = PcSaftRecord::new(
        fx(1, 1),
        fx(3, 1),
        fx(200, 1),
        None,
        None,
        Some(fx(3, 100)),
        Some(fx(2500, 1)),
        Some(Fx::one()),
        Some(Fx::one()),
        None,
        vec![],
        None,
        None,
        None,
    );
    assert_eq!(rec.association_records.len(), 1);
    let a = rec.association_records[0];
    assert_eq!(a.parameters.kappa_ab, fx(3, 100));
    assert_eq!(a.parameters.epsilon_k_ab, fx(2500, 1));
    assert_eq!(a.na, Fx::one());
    assert_eq!(a.nb, Fx::one());
    assert_eq!(a.nc, Fx::zero());
    assert_eq!(rec.single_association(), Some(a));
}

#[test]
fn binary_record_flags_association() {
    let plain = PcSaftBinaryRecord::new(Some(fx(1, 100)), None, None);
    assert_eq!(plain.k_ij, fx(1, 100));
    assert!(plain.association.is_none());
    let assoc = PcSaftBinaryRecord::new(None, Some(fx(5, 100)), None);
    assert_eq!(assoc.k_ij, Fx::zero());
    assert!(assoc.association.is_some());
}

#[test]
fn binary_interaction_from_segment_pairs() {
    // Two three-segment molecules; nonzero pair parameters only between
    // the hydroxyl segment and the alkyl segments. The count-weighted
    // average is -0.5/9.
    let mut pairs: Vec<(Fx, Fx, Fx)> = Vec::new();
    let counts1 = [(fx(-2, 10), 2i64), (fx(-1, 10), 1i64)];
    // Pairs with zero interaction fill the remaining 6 combinations.
    for &(k, n1) in &counts1 {
        pairs.push((k, Fx::from_int(n1), Fx::one()));
    }
    for _ in 0..6 {
        pairs.push((Fx::zero(), Fx::one(), Fx::one()));
    }
    let b = PcSaftBinaryRecord::from_segments_binary(&pairs).unwrap();
    assert!(close(b.k_ij, fx(-5, 90), 8), "k_ij = {:?}", b.k_ij);
}

#[test]
fn from_records_assembles_arrays() {
    let pure = vec![dme_like(), propane_like()];
    let kij = fx(2, 100);
    let row0 = vec![PcSaftBinaryRecord::from_k_ij(Fx::zero()), PcSaftBinaryRecord::from_k_ij(kij)];
    let row1 = vec![PcSaftBinaryRecord::from_k_ij(kij), PcSaftBinaryRecord::from_k_ij(Fx::zero())];
    let p = PcSaftParameters::from_records(pure, Some(vec![row0, row1])).unwrap();
    assert_eq!(p.m.len(), 2);
    assert_eq!(p.m[0], fx(22634, 10000));
    assert_eq!(p.sigma[1], fx(3618353, 1000000));
    assert_eq!(p.molarweight[1], fx(440962, 10000));
    // The first component carries the only dipole.
    assert_eq!(p.ndipole, 1);
    assert_eq!(p.nquadpole, 0);
    assert_eq!(p.dipole_comp, vec![0usize]);
    assert!(p.mu2[0].m > 0);
    assert_eq!(p.mu2[1].m, 0);
    // Pair diameter: the arithmetic mean.
    let mean = p.sigma[0].add(p.sigma[1]).div_int(2);
    assert_eq!(p.sigma_ij[0][1], mean);
    // Pair energy: the geometric mean, corrected by 1 - k_ij.
    let geo = p.epsilon_k[0].mul(p.epsilon_k[1]).sqrt();
    assert_eq!(p.e_k_ij[0][1], geo);
    assert_eq!(p.epsilon_k_ij[0][1], geo.mul(Fx::one().sub(kij)));
    assert_eq!(p.epsilon_k_ij[0][0], p.e_k_ij[0][0]);
    // No entropy-scaling coefficients were supplied.
    assert!(p.viscosity.is_none());
    assert!(p.diffusion.is_none());
    // The records are kept.
    let (records, binary) = p.records();
    assert_eq!(records.len(), 2);
    assert!(binary.is_some());
}

#[test]
fn hs_diameter_shrinks_with_temperature() {
    let pure = vec![propane_like()];
    let p = PcSaftParameters::from_records(pure, None).unwrap();
    let d_cold = p.hs_diameter(fx(2081101, 10000));
    let d_hot = p.hs_diameter(fx(20811010, 10000));
    // d = sigma (1 - 0.12 exp(-3 eps / T)): higher temperature, smaller
    // effective diameter.
    assert!(d_hot[0].m < d_cold[0].m);
    assert!(d_cold[0].m < p.sigma[0].m);
    // At T = eps: d = sigma (1 - 0.12 exp(-3)).
    let expected = p.sigma[0].mul(Fx::one().sub(fx(12, 100).mul(fx(49787, 1000000))));
    assert!(close(d_cold[0], expected, 200000), "d = {:?}", d_cold[0]);
}

#[test]
fn association_combining_rule() {
    let pi = feos::pcsaft::PcSaftAssociationRecord::new(fx(4, 100), fx(2000, 1));
    let pj = feos::pcsaft::PcSaftAssociationRecord::new(fx(9, 100), fx(3000, 1));
    let c = PcSaftParameters::combining_rule(pi, pj);
    assert!(close(c.kappa_ab, fx(6, 100), 4), "kappa = {:?}", c.kappa_ab);
    assert_eq!(c.epsilon_k_ab, fx(2500, 1));
}

#[test]
fn update_binary_overwrites_given_parameters() {
    let mut pij = feos::pcsaft::PcSaftAssociationRecord::new(fx(4, 100), fx(2000, 1));
    let binary = feos::pcsaft::PcSaftBinaryAssociationRecord::new(Some(fx(5, 100)), None);
    PcSaftParameters::update_binary(&mut pij, binary);
    assert_eq!(pij.kappa_ab, fx(5, 100));
    assert_eq!(pij.epsilon_k_ab, fx(2000, 1));
}

#[test]
fn from_segments_combines_groups() {
    // One kind of segment, twice: m doubles, sigma and epsilon stay.
    let seg = record(fx(1, 1), fx(3, 1), fx(200, 1), None, None);
    let segments = vec![(seg.clone(), Fx::from_int(2))];
    let rec = PcSaftRecord::from_segments(&segments).unwrap();
    assert_eq!(rec.m, Fx::from_int(2));
    assert!(close(rec.sigma, fx(3, 1), 1 << 16), "sigma = {:?}", rec.sigma);
    assert!(close(rec.epsilon_k, fx(200, 1), 4), "eps = {:?}", rec.epsilon_k);
    assert!(rec.mu.is_none());
    assert!(rec.viscosity.is_none());
}

#[test]
fn from_segments_rejects_two_polar_groups() {
    let polar = record(fx(1, 1), fx(3, 1), fx(200, 1), Some(fx(1, 1)), None);
    let plain = record(fx(1, 1), fx(3, 1), fx(200, 1), None, None);
    let bad = vec![(polar.clone(), 2usize)];
    assert_eq!(
        PcSaftRecord::from_segments_counts(&bad).unwrap_err(),
        EosError::IncompatibleParameters
    );
    let good = vec![(polar, 1usize), (plain, 2usize)];
    let rec = PcSaftRecord::from_segments_counts(&good).unwrap();
    assert!(rec.mu.is_some());
}

#[test]
fn association_strength_uses_pair_diameters() {
    let pure = vec![propane_like()];
    let p = PcSaftParameters::from_records(pure, None).unwrap();
    let assoc = feos::pcsaft::PcSaftAssociationRecord::new(fx(3, 100), fx(2000, 1));
    let s_cold = p.association_strength(fx(300, 1), 0, 0, assoc);
    let s_hot = p.association_strength(fx(600, 1), 0, 0, assoc);
    // Association weakens with temperature.
    assert!(s_cold.m > s_hot.m);
    assert!(s_hot.m > 0);
}

#[test]
fn binary_matrix_from_segment_pairs() {
    // The segment-pair average feeds the binary matrix of a two-component
    // set; the diagonal stays zero.
    let mut pairs: Vec<(Fx, Fx, Fx)> = Vec::new();
    pairs.push((fx(-2, 10), Fx::from_int(2), Fx::one()));
    pairs.push((fx(-1, 10), Fx::one(), Fx::one()));
    for _ in 0..6 {
        pairs.push((Fx::zero(), Fx::one(), Fx::one()));
    }
    let b01 = PcSaftBinaryRecord::from_segments_binary(&pairs).unwrap();
    let zero = PcSaftBinaryRecord::from_k_ij(Fx::zero());
    let pure = vec![propane_like(), dme_like()];
    let p = PcSaftParameters::from_records(
        pure,
        Some(vec![vec![zero, b01], vec![b01, zero]]),
    )
    .unwrap();
    let k = p.k_ij().unwrap();
    assert_eq!(k[0][0], Fx::zero());
    assert_eq!(k[1][1], Fx::zero());
    assert!(close(k[0][1], fx(-5, 90), 8));
    assert_eq!(k[0][1], k[1][0]);
}

#[test]
fn quadrupolar_components_are_identified() {
    let pure = vec![propane_like(), co2_like(), dme_like()];
    let p = PcSaftParameters::from_records(pure, None).unwrap();
    assert_eq!(p.ndipole, 1);
    assert_eq!(p.nquadpole, 1);
    assert_eq!(p.quadpole_comp, vec![1usize]);
    assert_eq!(p.dipole_comp, vec![2usize]);
    assert!(p.q2[1].m > 0);
    assert_eq!(p.q2[0].m, 0);
}
