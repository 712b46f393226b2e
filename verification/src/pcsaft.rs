//! PC-SAFT parameter sets: pure-component, association and binary records,
//! and their assembly into the arrays a model evaluation consumes.
//!
//! Scalars are fixed-point reduced values; segment diameters in Angstrom,
//! energies in Kelvin, dipole and quadrupole moments in Debye units, as the
//! records of this model family are tabulated.

use vstd::prelude::*;

use crate::error::EosError;
use crate::fixed::{add_spec, div_spec, mul_spec, sqrt_total, sub_spec, tdiv, Fx, SCALE};
use crate::transcend::{exp_spec, pow_spec};

verus! {

/// Pure-component association parameters.
#[derive(Clone, Copy, PartialEq, Eq, Structural, Debug)]
pub struct PcSaftAssociationRecord {
    /// Association volume parameter.
    pub kappa_ab: Fx,
    /// Association energy parameter in Kelvin.
    pub epsilon_k_ab: Fx,
}

impl PcSaftAssociationRecord {
    /// Pack the two association parameters.
    pub fn new(kappa_ab: Fx, epsilon_k_ab: Fx) -> (r: PcSaftAssociationRecord)
        ensures
            r.kappa_ab == kappa_ab,
            r.epsilon_k_ab == epsilon_k_ab,
    {
        PcSaftAssociationRecord { kappa_ab, epsilon_k_ab }
    }
}

/// An association site set: parameters with the site counts of types A, B
/// and C.
#[derive(Clone, Copy, PartialEq, Eq, Structural, Debug)]
pub struct AssociationRecord {
    /// The model-specific association parameters.
    pub parameters: PcSaftAssociationRecord,
    /// Number of sites of type A.
    pub na: Fx,
    /// Number of sites of type B.
    pub nb: Fx,
    /// Number of sites of type C.
    pub nc: Fx,
}

impl AssociationRecord {
    /// Pack association parameters with their site counts.
    pub fn new(parameters: PcSaftAssociationRecord, na: Fx, nb: Fx, nc: Fx) -> (r:
        AssociationRecord)
        ensures
            r.parameters == parameters,
            r.na == na,
            r.nb == nb,
            r.nc == nc,
    {
        AssociationRecord { parameters, na, nb, nc }
    }
}

/// Cross-association parameters of a binary pair; absent entries fall back
/// to the combining rule.
#[derive(Clone, Copy, PartialEq, Eq, Structural, Debug)]
pub struct PcSaftBinaryAssociationRecord {
    /// Cross-association volume parameter.
    pub kappa_ab: Option<Fx>,
    /// Cross-association energy parameter.
    pub epsilon_k_ab: Option<Fx>,
}

impl PcSaftBinaryAssociationRecord {
    /// Pack the cross-association parameters.
    pub fn new(kappa_ab: Option<Fx>, epsilon_k_ab: Option<Fx>) -> (r:
        PcSaftBinaryAssociationRecord)
        ensures
            r.kappa_ab == kappa_ab,
            r.epsilon_k_ab == epsilon_k_ab,
    {
        PcSaftBinaryAssociationRecord { kappa_ab, epsilon_k_ab }
    }
}

/// A pair of association-site indices.
#[derive(Clone, Copy, PartialEq, Eq, Structural, Debug)]
pub struct SitePair {
    /// The site on the first component.
    pub first: usize,
    /// The site on the second component.
    pub second: usize,
}

/// Binary association parameters, optionally pinned to a site pair.
#[derive(Clone, Copy, PartialEq, Eq, Structural, Debug)]
pub struct BinaryAssociationRecord {
    /// The cross-association parameters.
    pub parameters: PcSaftBinaryAssociationRecord,
    /// The site indices the record applies to, when restricted.
    pub sites: Option<SitePair>,
}

impl BinaryAssociationRecord {
    /// Pack binary association parameters.
    pub fn new(parameters: PcSaftBinaryAssociationRecord, sites: Option<SitePair>) -> (r:
        BinaryAssociationRecord)
        ensures
            r.parameters == parameters,
            r.sites == sites,
    {
        BinaryAssociationRecord { parameters, sites }
    }
}

/// PC-SAFT pure-component parameters.
#[derive(Clone, Debug)]
pub struct PcSaftRecord {
    /// Segment number.
    pub m: Fx,
    /// Segment diameter in Angstrom.
    pub sigma: Fx,
    /// Energetic parameter in Kelvin.
    pub epsilon_k: Fx,
    /// Dipole moment in Debye.
    pub mu: Option<Fx>,
    /// Quadrupole moment in Debye times Angstrom.
    pub q: Option<Fx>,
    /// Association sites.
    pub association_records: Vec<AssociationRecord>,
    /// Entropy-scaling coefficients for the viscosity.
    pub viscosity: Option<[Fx; 4]>,
    /// Entropy-scaling coefficients for the diffusion coefficient.
    pub diffusion: Option<[Fx; 5]>,
    /// Entropy-scaling coefficients for the thermal conductivity.
    pub thermal_conductivity: Option<[Fx; 4]>,
}

impl PcSaftRecord {
    /// Build a pure-component record; flat association parameters, when
    /// any site count is given, are appended to the explicit association
    /// records, absent entries defaulting to zero.
    pub fn new(
        m: Fx,
        sigma: Fx,
        epsilon_k: Fx,
        mu: Option<Fx>,
        q: Option<Fx>,
        kappa_ab: Option<Fx>,
        epsilon_k_ab: Option<Fx>,
        na: Option<Fx>,
        nb: Option<Fx>,
        nc: Option<Fx>,
        association_records: Vec<AssociationRecord>,
        viscosity: Option<[Fx; 4]>,
        diffusion: Option<[Fx; 5]>,
        thermal_conductivity: Option<[Fx; 4]>,
    ) -> (r: PcSaftRecord)
        ensures
            r.m == m && r.sigma == sigma && r.epsilon_k == epsilon_k,
            r.mu == mu && r.q == q,
            r.viscosity == viscosity && r.diffusion == diffusion,
            r.thermal_conductivity == thermal_conductivity,
            na is None && nb is None && nc is None ==> r.association_records@
                == association_records@,
            na is Some || nb is Some || nc is Some ==> r.association_records@
                == association_records@.push(
                AssociationRecord {
                    parameters: PcSaftAssociationRecord {
                        kappa_ab: opt_or_zero(kappa_ab),
                        epsilon_k_ab: opt_or_zero(epsilon_k_ab),
                    },
                    na: opt_or_zero(na),
                    nb: opt_or_zero(nb),
                    nc: opt_or_zero(nc),
                },
            ),
    {
        let mut association_records = association_records;
        if na.is_some() || nb.is_some() || nc.is_some() {
            association_records.push(
                AssociationRecord::new(
                    PcSaftAssociationRecord::new(unwrap_or_zero(kappa_ab), unwrap_or_zero(
                        epsilon_k_ab,
                    )),
                    unwrap_or_zero(na),
                    unwrap_or_zero(nb),
                    unwrap_or_zero(nc),
                ),
            );
        }
        PcSaftRecord {
            m,
            sigma,
            epsilon_k,
            mu,
            q,
            association_records,
            viscosity,
            diffusion,
            thermal_conductivity,
        }
    }

    /// A field-exact copy of the record.
    pub fn duplicate(&self) -> (r: PcSaftRecord)
        ensures
            r.m == self.m,
            r.sigma == self.sigma,
            r.epsilon_k == self.epsilon_k,
            r.mu == self.mu,
            r.q == self.q,
            r.association_records@ == self.association_records@,
            r.viscosity == self.viscosity,
            r.diffusion == self.diffusion,
            r.thermal_conductivity == self.thermal_conductivity,
    {
        PcSaftRecord {
            m: self.m,
            sigma: self.sigma,
            epsilon_k: self.epsilon_k,
            mu: self.mu,
            q: self.q,
            association_records: clone_assoc_vec(&self.association_records),
            viscosity: self.viscosity,
            diffusion: self.diffusion,
            thermal_conductivity: self.thermal_conductivity,
        }
    }

    /// The single association record, for flat serialization of records
    /// with exactly one site set.
    pub fn single_association(&self) -> (r: Option<AssociationRecord>)
        ensures
            self.association_records@.len() == 1 ==> r == Some(self.association_records@[0]),
            self.association_records@.len() != 1 ==> r is None,
    {
        if self.association_records.len() == 1 {
            Some(self.association_records[0])
        } else {
            None
        }
    }
}

/// A default of zero for an absent scalar.
pub open spec fn opt_or_zero(x: Option<Fx>) -> Fx {
    match x {
        Some(v) => v,
        None => Fx { m: 0 },
    }
}

/// A default of zero for an absent scalar.
pub fn unwrap_or_zero(x: Option<Fx>) -> (r: Fx)
    ensures
        r == opt_or_zero(x),
{
    match x {
        Some(v) => v,
        None => Fx { m: 0 },
    }
}

/// PC-SAFT binary interaction parameters.
#[derive(Clone, Copy, PartialEq, Eq, Structural, Debug)]
pub struct PcSaftBinaryRecord {
    /// Binary dispersion interaction parameter.
    pub k_ij: Fx,
    /// Binary association parameters.
    pub association: Option<BinaryAssociationRecord>,
}

impl PcSaftBinaryRecord {
    /// Build a binary record; an association entry exists exactly when a
    /// cross-association parameter is given.
    pub fn new(k_ij: Option<Fx>, kappa_ab: Option<Fx>, epsilon_k_ab: Option<Fx>) -> (r:
        PcSaftBinaryRecord)
        ensures
            r.k_ij == opt_or_zero(k_ij),
            kappa_ab is None && epsilon_k_ab is None ==> r.association is None,
            kappa_ab is Some || epsilon_k_ab is Some ==> r.association == Some(
                BinaryAssociationRecord {
                    parameters: PcSaftBinaryAssociationRecord { kappa_ab, epsilon_k_ab },
                    sites: None,
                },
            ),
    {
        let k = unwrap_or_zero(k_ij);
        let association = if kappa_ab.is_none() && epsilon_k_ab.is_none() {
            None
        } else {
            Some(
                BinaryAssociationRecord::new(
                    PcSaftBinaryAssociationRecord::new(kappa_ab, epsilon_k_ab),
                    None,
                ),
            )
        };
        PcSaftBinaryRecord { k_ij: k, association }
    }

    /// A binary record of the dispersion parameter alone.
    pub fn from_k_ij(k_ij: Fx) -> (r: PcSaftBinaryRecord)
        ensures
            r.k_ij == k_ij,
            r.association is None,
    {
        PcSaftBinaryRecord { k_ij, association: None }
    }

    /// The dispersion parameter alone.
    pub fn to_k_ij(&self) -> (r: Fx)
        ensures
            r == self.k_ij,
    {
        self.k_ij
    }
}

/// The count-weighted average of segment pair interaction parameters over
/// the first `k` segment pairs: the running sums of `k_ij n_i n_j` and of
/// `n_i n_j`.
pub open spec fn segments_binary_pre(s: Seq<(Fx, Fx, Fx)>, k: nat) -> (int, int)
    decreases k,
{
    if k == 0 {
        (0, 0)
    } else {
        let p = segments_binary_pre(s, (k - 1) as nat);
        let nab = mul_spec(s[k - 1].1@, s[k - 1].2@);
        (add_spec(p.0, mul_spec(s[k - 1].0@, nab)), add_spec(p.1, nab))
    }
}

impl PcSaftBinaryRecord {
    /// The binary dispersion parameter of two segmented components: the
    /// segment-count-weighted average of the segment pair parameters.
    pub fn from_segments_binary(segments: &Vec<(Fx, Fx, Fx)>) -> (r: Result<
        PcSaftBinaryRecord,
        EosError,
    >)
        ensures
            match r {
                Ok(b) => {
                    &&& b.association is None
                    &&& b.k_ij@ == div_spec(
                        segments_binary_pre(segments@, segments@.len()).0,
                        segments_binary_pre(segments@, segments@.len()).1,
                    )
                },
                Err(e) => e == EosError::IncompatibleParameters,
            },
            r is Ok <==> segments@.len() > 0,
    {
        if segments.len() == 0 {
            return Err(EosError::IncompatibleParameters);
        }
        let mut kij_sum = Fx::zero();
        let mut n_sum = Fx::zero();
        let mut i: usize = 0;
        while i < segments.len()
            invariant
                0 <= i <= segments@.len(),
                (kij_sum@, n_sum@) == segments_binary_pre(segments@, i as nat),
            decreases segments@.len() - i,
        {
            let (br, n1, n2) = segments[i];
            let nab = n1.mul(n2);
            kij_sum = kij_sum.add(br.mul(nab));
            n_sum = n_sum.add(nab);
            i = i + 1;
        }
        Ok(PcSaftBinaryRecord { k_ij: kij_sum.div(n_sum), association: None })
    }
}

/// Running sums over weighted segments: segment number, the third-power
/// diameter sum, the energy sum, and the total count.
pub open spec fn seg_sums(s: Seq<(PcSaftRecord, Fx)>, k: nat) -> (int, int, int, int)
    decreases k,
{
    if k == 0 {
        (0, 0, 0, 0)
    } else {
        let p = seg_sums(s, (k - 1) as nat);
        let r = s[k - 1].0;
        let n = s[k - 1].1@;
        let s3 = mul_spec(mul_spec(r.sigma@, r.sigma@), r.sigma@);
        (
            add_spec(p.0, mul_spec(r.m@, n)),
            add_spec(p.1, mul_spec(mul_spec(r.m@, s3), n)),
            add_spec(p.2, mul_spec(mul_spec(r.m@, r.epsilon_k@), n)),
            add_spec(p.3, n),
        )
    }
}

/// A running optional sum of a weighted polar moment.
pub open spec fn seg_opt_sum(s: Seq<(PcSaftRecord, Fx)>, k: nat, quad: bool) -> Option<int>
    decreases k,
{
    if k == 0 {
        None
    } else {
        let p = seg_opt_sum(s, (k - 1) as nat, quad);
        let r = s[k - 1].0;
        let n = s[k - 1].1@;
        let moment = if quad {
            r.q
        } else {
            r.mu
        };
        match moment {
            None => p,
            Some(v) => match p {
                None => Some(mul_spec(v@, n)),
                Some(acc) => Some(add_spec(acc, mul_spec(v@, n))),
            },
        }
    }
}

/// The concatenated association records of weighted segments, site counts
/// scaled by each segment's count.
pub open spec fn seg_assoc(s: Seq<(PcSaftRecord, Fx)>, k: nat) -> Seq<AssociationRecord>
    decreases k,
{
    if k == 0 {
        Seq::empty()
    } else {
        let p = seg_assoc(s, (k - 1) as nat);
        let r = s[k - 1].0;
        let n = s[k - 1].1;
        p + r.association_records@.map_values(
            |a: AssociationRecord| AssociationRecord {
                parameters: a.parameters,
                na: Fx { m: mul_spec(a.na@, n@) as i64 },
                nb: Fx { m: mul_spec(a.nb@, n@) as i64 },
                nc: Fx { m: mul_spec(a.nc@, n@) as i64 },
            },
        )
    }
}

/// Running viscosity-coefficient sums over weighted segments: the first
/// two weighted by each segment's third-power diameter volume (the second
/// normalized by the given power of the diameter sum), the last two by
/// the plain count.
pub open spec fn visc_sums(s: Seq<(PcSaftRecord, Fx)>, den: int, k: nat) -> (int, int, int, int)
    decreases k,
{
    if k == 0 {
        (0, 0, 0, 0)
    } else {
        let p = visc_sums(s, den, (k - 1) as nat);
        let r = s[k - 1].0;
        let n = s[k - 1].1@;
        let s3 = mul_spec(mul_spec(r.m@, pow3_spec(r.sigma@)), n);
        match r.viscosity {
            Some(c) => (
                add_spec(p.0, mul_spec(s3, c[0]@)),
                add_spec(p.1, div_spec(mul_spec(s3, c[1]@), den)),
                add_spec(p.2, mul_spec(n, c[2]@)),
                add_spec(p.3, mul_spec(n, c[3]@)),
            ),
            None => p,
        }
    }
}

/// Running thermal-conductivity-coefficient sums over weighted segments:
/// the first three weighted by each count, the last by the total count.
pub open spec fn tc_sums(s: Seq<(PcSaftRecord, Fx)>, n_t: int, k: nat) -> (int, int, int, int)
    decreases k,
{
    if k == 0 {
        (0, 0, 0, 0)
    } else {
        let p = tc_sums(s, n_t, (k - 1) as nat);
        let r = s[k - 1].0;
        let n = s[k - 1].1@;
        match r.thermal_conductivity {
            Some(c) => (
                add_spec(p.0, mul_spec(n, c[0]@)),
                add_spec(p.1, mul_spec(n, c[1]@)),
                add_spec(p.2, mul_spec(n, c[2]@)),
                add_spec(p.3, mul_spec(n_t, c[3]@)),
            ),
            None => p,
        }
    }
}

/// The normalization power of the diameter sum in the viscosity rule.
pub open spec fn visc_den_spec(sigma3: int) -> int {
    pow_spec(
        sigma3,
        div_spec(
            crate::fixed::clip(45 * crate::fixed::SCALE),
            crate::fixed::clip(100 * crate::fixed::SCALE),
        ),
    )
}

/// Whether every segment carries the given entropy-scaling coefficients.
pub open spec fn seg_all_visc(s: Seq<(PcSaftRecord, Fx)>) -> bool {
    forall|i: int| 0 <= i < s.len() ==> (#[trigger] s[i].0.viscosity) is Some
}

/// Whether every segment carries diffusion coefficients.
pub open spec fn seg_all_diff(s: Seq<(PcSaftRecord, Fx)>) -> bool {
    forall|i: int| 0 <= i < s.len() ==> (#[trigger] s[i].0.diffusion) is Some
}

/// Whether every segment carries thermal-conductivity coefficients.
pub open spec fn seg_all_tc(s: Seq<(PcSaftRecord, Fx)>) -> bool {
    forall|i: int| 0 <= i < s.len() ==> (#[trigger] s[i].0.thermal_conductivity) is Some
}

impl PcSaftRecord {
    /// Combine weighted segments into one pure-component record by the
    /// homosegmented group-contribution rules: count-weighted sums of the
    /// segment number, diameter and energy, summed polar moments, scaled
    /// association sites, and entropy-scaling coefficients where every
    /// segment carries them, with the chain-reference correction on the
    /// first viscosity coefficient.
    pub fn from_segments(segments: &Vec<(PcSaftRecord, Fx)>) -> (r: Result<PcSaftRecord, EosError>)
        ensures
            match r {
                Ok(rec) => {
                    &&& rec.m@ == seg_sums(segments@, segments@.len()).0
                    &&& rec.sigma@ == pow_spec(
                        div_spec(
                            seg_sums(segments@, segments@.len()).1,
                            seg_sums(segments@, segments@.len()).0,
                        ),
                        tdiv(SCALE as int, 3),
                    )
                    &&& rec.epsilon_k@ == div_spec(
                        seg_sums(segments@, segments@.len()).2,
                        seg_sums(segments@, segments@.len()).0,
                    )
                    &&& match rec.mu {
                        Some(v) => seg_opt_sum(segments@, segments@.len(), false) == Some(v@),
                        None => seg_opt_sum(segments@, segments@.len(), false) is None,
                    }
                    &&& match rec.q {
                        Some(v) => seg_opt_sum(segments@, segments@.len(), true) == Some(v@),
                        None => seg_opt_sum(segments@, segments@.len(), true) is None,
                    }
                    &&& rec.association_records@ == seg_assoc(segments@, segments@.len())
                    &&& (rec.viscosity is Some <==> seg_all_visc(segments@))
                    &&& (rec.diffusion is Some <==> seg_all_diff(segments@))
                    &&& (rec.thermal_conductivity is Some <==> seg_all_tc(segments@))
                    &&& (rec.viscosity matches Some(v) ==> {
                        let sums = visc_sums(
                            segments@,
                            visc_den_spec(seg_sums(segments@, segments@.len()).1),
                            segments@.len(),
                        );
                        &&& v[0]@ == sub_spec(
                            sums.0,
                            tdiv(
                                crate::transcend::ln_spec(seg_sums(segments@, segments@.len()).0),
                                2,
                            ),
                        )
                        &&& v[1]@ == sums.1
                        &&& v[2]@ == sums.2
                        &&& v[3]@ == sums.3
                    })
                    &&& (rec.thermal_conductivity matches Some(tc) ==> {
                        let sums = tc_sums(
                            segments@,
                            seg_sums(segments@, segments@.len()).3,
                            segments@.len(),
                        );
                        &&& tc[0]@ == sums.0
                        &&& tc[1]@ == sums.1
                        &&& tc[2]@ == sums.2
                        &&& tc[3]@ == sums.3
                    })
                    &&& (rec.diffusion matches Some(d) ==> d[0]@ == 0 && d[1]@ == 0 && d[2]@ == 0
                        && d[3]@ == 0 && d[4]@ == 0)
                },
                Err(e) => e == EosError::IncompatibleParameters,
            },
            r is Ok <==> segments@.len() > 0,
    {
        if segments.len() == 0 {
            return Err(EosError::IncompatibleParameters);
        }
        let mut m = Fx::zero();
        let mut sigma3 = Fx::zero();
        let mut epsilon_k = Fx::zero();
        let mut n_t = Fx::zero();
        let mut i: usize = 0;
        while i < segments.len()
            invariant
                0 <= i <= segments@.len(),
                (m@, sigma3@, epsilon_k@, n_t@) == seg_sums(segments@, i as nat),
            decreases segments@.len() - i,
        {
            let (rec, n) = &segments[i];
            let s3 = rec.sigma.mul(rec.sigma).mul(rec.sigma);
            m = m.add(rec.m.mul(*n));
            sigma3 = sigma3.add(rec.m.mul(s3).mul(*n));
            epsilon_k = epsilon_k.add(rec.m.mul(rec.epsilon_k).mul(*n));
            n_t = n_t.add(*n);
            i = i + 1;
        }
        let mut mu: Option<Fx> = None;
        let mut q: Option<Fx> = None;
        let mut i2: usize = 0;
        while i2 < segments.len()
            invariant
                0 <= i2 <= segments@.len(),
                match mu {
                    Some(v) => seg_opt_sum(segments@, i2 as nat, false) == Some(v@),
                    None => seg_opt_sum(segments@, i2 as nat, false) is None,
                },
                match q {
                    Some(v) => seg_opt_sum(segments@, i2 as nat, true) == Some(v@),
                    None => seg_opt_sum(segments@, i2 as nat, true) is None,
                },
            decreases segments@.len() - i2,
        {
            let (rec, n) = &segments[i2];
            match rec.mu {
                Some(v) => {
                    let t = v.mul(*n);
                    mu = match mu {
                        None => Some(t),
                        Some(acc) => Some(acc.add(t)),
                    };
                },
                None => {},
            }
            match rec.q {
                Some(v) => {
                    let t = v.mul(*n);
                    q = match q {
                        None => Some(t),
                        Some(acc) => Some(acc.add(t)),
                    };
                },
                None => {},
            }
            i2 = i2 + 1;
        }
        let mut assoc: Vec<AssociationRecord> = Vec::new();
        let mut i3: usize = 0;
        while i3 < segments.len()
            invariant
                0 <= i3 <= segments@.len(),
                assoc@ == seg_assoc(segments@, i3 as nat),
            decreases segments@.len() - i3,
        {
            let (rec, n) = &segments[i3];
            let ghost before = assoc@;
            let mut j: usize = 0;
            while j < rec.association_records.len()
                invariant
                    0 <= j <= rec.association_records@.len(),
                    assoc@ == before + rec.association_records@.subrange(0, j as int).map_values(
                        |a: AssociationRecord| AssociationRecord {
                            parameters: a.parameters,
                            na: Fx { m: mul_spec(a.na@, n@) as i64 },
                            nb: Fx { m: mul_spec(a.nb@, n@) as i64 },
                            nc: Fx { m: mul_spec(a.nc@, n@) as i64 },
                        },
                    ),
                decreases rec.association_records@.len() - j,
            {
                let a = rec.association_records[j];
                assoc.push(
                    AssociationRecord::new(a.parameters, a.na.mul(*n), a.nb.mul(*n), a.nc.mul(*n)),
                );
                proof {
                    let f = |a: AssociationRecord| AssociationRecord {
                        parameters: a.parameters,
                        na: Fx { m: mul_spec(a.na@, n@) as i64 },
                        nb: Fx { m: mul_spec(a.nb@, n@) as i64 },
                        nc: Fx { m: mul_spec(a.nc@, n@) as i64 },
                    };
                    assert(rec.association_records@.subrange(0, j + 1).map_values(f)
                        =~= rec.association_records@.subrange(0, j as int).map_values(f).push(
                        f(rec.association_records@[j as int]),
                    ));
                }
                j = j + 1;
            }
            proof {
                let f = |a: AssociationRecord| AssociationRecord {
                    parameters: a.parameters,
                    na: Fx { m: mul_spec(a.na@, n@) as i64 },
                    nb: Fx { m: mul_spec(a.nb@, n@) as i64 },
                    nc: Fx { m: mul_spec(a.nc@, n@) as i64 },
                };
                assert(rec.association_records@.subrange(0, rec.association_records@.len() as int)
                    =~= rec.association_records@);
            }
            i3 = i3 + 1;
        }
        // Entropy scaling, only where every segment carries coefficients.
        let mut all_visc: bool = true;
        let mut all_diff: bool = true;
        let mut all_tc: bool = true;
        let mut i4: usize = 0;
        while i4 < segments.len()
            invariant
                0 <= i4 <= segments@.len(),
                all_visc <==> (forall|p: int|
                    0 <= p < i4 ==> (#[trigger] segments@[p].0.viscosity) is Some),
                all_diff <==> (forall|p: int|
                    0 <= p < i4 ==> (#[trigger] segments@[p].0.diffusion) is Some),
                all_tc <==> (forall|p: int|
                    0 <= p < i4 ==> (#[trigger] segments@[p].0.thermal_conductivity) is Some),
            decreases segments@.len() - i4,
        {
            let (rec, _n) = &segments[i4];
            if rec.viscosity.is_none() {
                all_visc = false;
            }
            if rec.diffusion.is_none() {
                all_diff = false;
            }
            if rec.thermal_conductivity.is_none() {
                all_tc = false;
            }
            i4 = i4 + 1;
        }
        let viscosity: Option<[Fx; 4]> = if all_visc {
            let den = crate::transcend::pow_fx(sigma3, Fx::from_ratio(45, 100));
            let mut p0 = Fx::zero();
            let mut p1 = Fx::zero();
            let mut p2 = Fx::zero();
            let mut p3 = Fx::zero();
            let mut i5: usize = 0;
            while i5 < segments.len()
                invariant
                    0 <= i5 <= segments@.len(),
                    seg_all_visc(segments@),
                    den@ == visc_den_spec(sigma3@),
                    (p0@, p1@, p2@, p3@) == visc_sums(segments@, den@, i5 as nat),
                decreases segments@.len() - i5,
            {
                let (rec, n) = &segments[i5];
                let s3 = rec.m.mul(rec.sigma.mul(rec.sigma).mul(rec.sigma)).mul(*n);
                let c = match rec.viscosity {
                    Some(c) => c,
                    None => [Fx::zero(), Fx::zero(), Fx::zero(), Fx::zero()],
                };
                p0 = p0.add(s3.mul(c[0]));
                p1 = p1.add(s3.mul(c[1]).div(den));
                p2 = p2.add(n.mul(c[2]));
                p3 = p3.add(n.mul(c[3]));
                i5 = i5 + 1;
            }
            // Chain-reference correction on the first coefficient.
            let half_ln_m = crate::transcend::ln_fx(m).div_int(2);
            Some([p0.sub(half_ln_m), p1, p2, p3])
        } else {
            None
        };
        let thermal_conductivity: Option<[Fx; 4]> = if all_tc {
            let mut p0 = Fx::zero();
            let mut p1 = Fx::zero();
            let mut p2 = Fx::zero();
            let mut p3 = Fx::zero();
            let mut i6: usize = 0;
            while i6 < segments.len()
                invariant
                    0 <= i6 <= segments@.len(),
                    seg_all_tc(segments@),
                    n_t@ == seg_sums(segments@, segments@.len()).3,
                    (p0@, p1@, p2@, p3@) == tc_sums(segments@, n_t@, i6 as nat),
                decreases segments@.len() - i6,
            {
                let (rec, n) = &segments[i6];
                let c = match rec.thermal_conductivity {
                    Some(c) => c,
                    None => [Fx::zero(), Fx::zero(), Fx::zero(), Fx::zero()],
                };
                p0 = p0.add(n.mul(c[0]));
                p1 = p1.add(n.mul(c[1]));
                p2 = p2.add(n.mul(c[2]));
                p3 = p3.add(n_t.mul(c[3]));
                i6 = i6 + 1;
            }
            Some([p0, p1, p2, p3])
        } else {
            None
        };
        let diffusion: Option<[Fx; 5]> = if all_diff {
            Some([Fx::zero(), Fx::zero(), Fx::zero(), Fx::zero(), Fx::zero()])
        } else {
            None
        };
        Ok(
            PcSaftRecord {
                m,
                sigma: crate::transcend::pow_fx(sigma3.div(m), Fx::one().div_int(3)),
                epsilon_k: epsilon_k.div(m),
                mu,
                q,
                association_records: assoc,
                viscosity,
                diffusion,
                thermal_conductivity,
            },
        )
    }

    /// Running sums over counted segments, each count scaled to a mole
    /// amount.
    pub open spec fn seg_sums_counts(s: Seq<(PcSaftRecord, usize)>, k: nat) -> (
        int,
        int,
        int,
        int,
    )
        decreases k,
    {
        if k == 0 {
            (0, 0, 0, 0)
        } else {
            let p = Self::seg_sums_counts(s, (k - 1) as nat);
            let r = s[k - 1].0;
            let n = crate::fixed::clip(s[k - 1].1 * crate::fixed::SCALE);
            let s3 = mul_spec(mul_spec(r.sigma@, r.sigma@), r.sigma@);
            (
                add_spec(p.0, mul_spec(r.m@, n)),
                add_spec(p.1, mul_spec(mul_spec(r.m@, s3), n)),
                add_spec(p.2, mul_spec(mul_spec(r.m@, r.epsilon_k@), n)),
                add_spec(p.3, n),
            )
        }
    }

    /// A running optional polar-moment sum over counted segments.
    pub open spec fn seg_opt_sum_counts(
        s: Seq<(PcSaftRecord, usize)>,
        k: nat,
        quad: bool,
    ) -> Option<int>
        decreases k,
    {
        if k == 0 {
            None
        } else {
            let p = Self::seg_opt_sum_counts(s, (k - 1) as nat, quad);
            let r = s[k - 1].0;
            let n = crate::fixed::clip(s[k - 1].1 * crate::fixed::SCALE);
            let moment = if quad {
                r.q
            } else {
                r.mu
            };
            match moment {
                None => p,
                Some(v) => match p {
                    None => Some(mul_spec(v@, n)),
                    Some(acc) => Some(add_spec(acc, mul_spec(v@, n))),
                },
            }
        }
    }

    /// The count of polar segments, weighted by multiplicity.
    pub open spec fn polar_count(s: Seq<(PcSaftRecord, usize)>, k: nat) -> int
        decreases k,
    {
        if k == 0 {
            0
        } else {
            let p = Self::polar_count(s, (k - 1) as nat);
            if s[k - 1].0.q is Some || s[k - 1].0.mu is Some {
                p + s[k - 1].1
            } else {
                p
            }
        }
    }

    /// Combine counted segments into one record; more than one polar
    /// segment is rejected, since the polar terms assume a single moment.
    pub fn from_segments_counts(segments: &Vec<(PcSaftRecord, usize)>) -> (r: Result<
        PcSaftRecord,
        EosError,
    >)
        ensures
            r matches Err(e) ==> e == EosError::IncompatibleParameters,
            r is Err <==> (Self::polar_count(segments@, segments@.len()) > 1 || segments@.len()
                == 0),
            r matches Ok(rec) ==> {
                &&& rec.m@ == Self::seg_sums_counts(segments@, segments@.len()).0
                &&& rec.sigma@ == pow_spec(
                    div_spec(
                        Self::seg_sums_counts(segments@, segments@.len()).1,
                        Self::seg_sums_counts(segments@, segments@.len()).0,
                    ),
                    tdiv(SCALE as int, 3),
                )
                &&& rec.epsilon_k@ == div_spec(
                    Self::seg_sums_counts(segments@, segments@.len()).2,
                    Self::seg_sums_counts(segments@, segments@.len()).0,
                )
                &&& match rec.mu {
                    Some(v) => Self::seg_opt_sum_counts(segments@, segments@.len(), false)
                        == Some(v@),
                    None => Self::seg_opt_sum_counts(segments@, segments@.len(), false) is None,
                }
                &&& match rec.q {
                    Some(v) => Self::seg_opt_sum_counts(segments@, segments@.len(), true) == Some(
                        v@,
                    ),
                    None => Self::seg_opt_sum_counts(segments@, segments@.len(), true) is None,
                }
                &&& (rec.viscosity is Some <==> (forall|i: int|
                    0 <= i < segments@.len() ==> (#[trigger] segments@[i].0.viscosity) is Some))
                &&& (rec.diffusion is Some <==> (forall|i: int|
                    0 <= i < segments@.len() ==> (#[trigger] segments@[i].0.diffusion) is Some))
                &&& (rec.thermal_conductivity is Some <==> (forall|i: int|
                    0 <= i < segments@.len() ==> (
                    #[trigger] segments@[i].0.thermal_conductivity) is Some))
            },
    {
        let mut polar: usize = 0;
        let mut i: usize = 0;
        while i < segments.len()
            invariant
                0 <= i <= segments@.len(),
                polar == Self::polar_count(segments@, i as nat),
                polar <= 1,
            decreases segments@.len() - i,
        {
            let (rec, n) = &segments[i];
            if rec.q.is_some() || rec.mu.is_some() {
                if *n > 1 || polar + *n > 1 {
                    proof {
                        polar_count_grows(segments@, i as nat + 1, segments@.len());
                    }
                    return Err(EosError::IncompatibleParameters);
                }
                polar = polar + *n;
            }
            i = i + 1;
        }
        let mut scaled: Vec<(PcSaftRecord, Fx)> = Vec::new();
        let mut j: usize = 0;
        while j < segments.len()
            invariant
                0 <= j <= segments@.len(),
                scaled@.len() == j,
                forall|p: int|
                    0 <= p < j ==> {
                        &&& (#[trigger] scaled@[p]).0.m == segments@[p].0.m
                        &&& scaled@[p].0.sigma == segments@[p].0.sigma
                        &&& scaled@[p].0.epsilon_k == segments@[p].0.epsilon_k
                        &&& scaled@[p].0.mu == segments@[p].0.mu
                        &&& scaled@[p].0.q == segments@[p].0.q
                        &&& scaled@[p].0.viscosity == segments@[p].0.viscosity
                        &&& scaled@[p].0.diffusion == segments@[p].0.diffusion
                        &&& scaled@[p].0.thermal_conductivity
                            == segments@[p].0.thermal_conductivity
                        &&& scaled@[p].1@ == crate::fixed::clip(
                            segments@[p].1 * crate::fixed::SCALE,
                        )
                    },
            decreases segments@.len() - j,
        {
            let (rec, n) = &segments[j];
            scaled.push((rec.duplicate(), Fx::from_usize(*n)));
            j = j + 1;
        }
        proof {
            assert(scaled_matches(scaled@, segments@));
            lemma_seg_sums_agree(scaled@, segments@, segments@.len());
            lemma_seg_opt_agree(scaled@, segments@, segments@.len(), false);
            lemma_seg_opt_agree(scaled@, segments@, segments@.len(), true);
            assert(seg_all_visc(scaled@) <==> (forall|p: int|
                0 <= p < segments@.len() ==> (#[trigger] segments@[p].0.viscosity) is Some)) by {
                if forall|p: int|
                    0 <= p < segments@.len() ==> (#[trigger] segments@[p].0.viscosity) is Some {
                    assert forall|p: int|
                        0 <= p < scaled@.len() implies (#[trigger] scaled@[p].0.viscosity)
                            is Some by {
                        assert(segments@[p].0.viscosity is Some);
                    };
                }
                if seg_all_visc(scaled@) {
                    assert forall|p: int|
                        0 <= p < segments@.len() implies (#[trigger] segments@[p].0.viscosity)
                            is Some by {
                        assert(scaled@[p].0.viscosity is Some);
                    };
                }
            };
            assert(seg_all_diff(scaled@) <==> (forall|p: int|
                0 <= p < segments@.len() ==> (#[trigger] segments@[p].0.diffusion) is Some)) by {
                if forall|p: int|
                    0 <= p < segments@.len() ==> (#[trigger] segments@[p].0.diffusion) is Some {
                    assert forall|p: int|
                        0 <= p < scaled@.len() implies (#[trigger] scaled@[p].0.diffusion)
                            is Some by {
                        assert(segments@[p].0.diffusion is Some);
                    };
                }
                if seg_all_diff(scaled@) {
                    assert forall|p: int|
                        0 <= p < segments@.len() implies (#[trigger] segments@[p].0.diffusion)
                            is Some by {
                        assert(scaled@[p].0.diffusion is Some);
                    };
                }
            };
            assert(seg_all_tc(scaled@) <==> (forall|p: int|
                0 <= p < segments@.len() ==> (
                #[trigger] segments@[p].0.thermal_conductivity) is Some)) by {
                if forall|p: int|
                    0 <= p < segments@.len() ==> (
                    #[trigger] segments@[p].0.thermal_conductivity) is Some {
                    assert forall|p: int|
                        0 <= p < scaled@.len() implies (
                        #[trigger] scaled@[p].0.thermal_conductivity) is Some by {
                        assert(segments@[p].0.thermal_conductivity is Some);
                    };
                }
                if seg_all_tc(scaled@) {
                    assert forall|p: int|
                        0 <= p < segments@.len() implies (
                        #[trigger] segments@[p].0.thermal_conductivity) is Some by {
                        assert(scaled@[p].0.thermal_conductivity is Some);
                    };
                }
            };
        }
        match PcSaftRecord::from_segments(&scaled) {
            Ok(rec) => Ok(rec),
            Err(e) => Err(e),
        }
    }
}

/// Whether a scaled segment list matches a counted one element by
/// element: the same record fields, each count scaled to a mole amount.
pub open spec fn scaled_matches(
    scaled: Seq<(PcSaftRecord, Fx)>,
    s: Seq<(PcSaftRecord, usize)>,
) -> bool {
    &&& scaled.len() == s.len()
    &&& forall|i: int|
        0 <= i < s.len() ==> {
            &&& (#[trigger] scaled[i]).0.m == s[i].0.m
            &&& scaled[i].0.sigma == s[i].0.sigma
            &&& scaled[i].0.epsilon_k == s[i].0.epsilon_k
            &&& scaled[i].0.mu == s[i].0.mu
            &&& scaled[i].0.q == s[i].0.q
            &&& scaled[i].0.viscosity == s[i].0.viscosity
            &&& scaled[i].0.diffusion == s[i].0.diffusion
            &&& scaled[i].0.thermal_conductivity == s[i].0.thermal_conductivity
            &&& scaled[i].1@ == crate::fixed::clip(s[i].1 * crate::fixed::SCALE)
        }
}

/// The weighted sums agree between a scaled list and its counted source.
proof fn lemma_seg_sums_agree(
    scaled: Seq<(PcSaftRecord, Fx)>,
    s: Seq<(PcSaftRecord, usize)>,
    k: nat,
)
    requires
        scaled_matches(scaled, s),
        k <= s.len(),
    ensures
        seg_sums(scaled, k) == PcSaftRecord::seg_sums_counts(s, k),
    decreases k,
{
    if k > 0 {
        lemma_seg_sums_agree(scaled, s, (k - 1) as nat);
    }
}

/// The optional polar sums agree between a scaled list and its counted
/// source.
proof fn lemma_seg_opt_agree(
    scaled: Seq<(PcSaftRecord, Fx)>,
    s: Seq<(PcSaftRecord, usize)>,
    k: nat,
    quad: bool,
)
    requires
        scaled_matches(scaled, s),
        k <= s.len(),
    ensures
        seg_opt_sum(scaled, k, quad) == PcSaftRecord::seg_opt_sum_counts(s, k, quad),
    decreases k,
{
    if k > 0 {
        lemma_seg_opt_agree(scaled, s, (k - 1) as nat, quad);
    }
}

/// The weighted polar count never shrinks as more segments are scanned.
proof fn polar_count_grows(s: Seq<(PcSaftRecord, usize)>, k1: nat, k2: nat)
    requires
        k1 <= k2 <= s.len(),
    ensures
        PcSaftRecord::polar_count(s, k1) <= PcSaftRecord::polar_count(s, k2),
    decreases k2 - k1,
{
    if k1 < k2 {
        polar_count_grows(s, k1, (k2 - 1) as nat);
    }
}

/// A component's registry identifiers; any subset may be present.
#[derive(Clone, Debug)]
pub struct Identifier {
    /// Registry number.
    pub cas: Option<String>,
    /// Trivial name.
    pub name: Option<String>,
    /// Systematic name.
    pub iupac_name: Option<String>,
    /// Line notation.
    pub smiles: Option<String>,
    /// Layered descriptor.
    pub inchi: Option<String>,
    /// Chemical formula.
    pub formula: Option<String>,
}

/// A pure component: its identifier, molar weight and model parameters.
#[derive(Clone, Debug)]
pub struct PureRecord {
    /// The component's identifiers.
    pub identifier: Identifier,
    /// Molar weight.
    pub molarweight: Fx,
    /// The PC-SAFT parameters.
    pub model_record: PcSaftRecord,
}

/// A cross-association entry extracted from the binary-record matrix.
#[derive(Clone, Copy, PartialEq, Eq, Structural, Debug)]
pub struct BinaryAssocEntry {
    /// Row component.
    pub i: usize,
    /// Column component.
    pub j: usize,
    /// The cross-association parameters of the pair.
    pub record: BinaryAssociationRecord,
}

/// Mantissa of the polar conversion factor: the Joule per Kelvin in units
/// of the Boltzmann constant, scaled to the reduced polar terms.
pub const POLAR_FACTOR_M: i64 = 31108326433901;

/// The reduced squared polar moment: the squared moment over the segment
/// number, a diameter power and the energy, times the conversion factor.
pub open spec fn polar2_spec(moment: int, m: int, s_pow: int, eps: int) -> int {
    mul_spec(
        div_spec(mul_spec(moment, moment), mul_spec(mul_spec(m, s_pow), eps)),
        POLAR_FACTOR_M as int,
    )
}

/// The third power of a scalar, as the arithmetic computes it.
pub open spec fn pow3_spec(x: int) -> int {
    mul_spec(mul_spec(x, x), x)
}

/// The fifth power of a scalar, as the arithmetic computes it.
pub open spec fn pow5_spec(x: int) -> int {
    mul_spec(mul_spec(pow3_spec(x), x), x)
}

/// The shape a hard-sphere treatment sees: spherical segments, chains with
/// a segment number per component, or heterosegmented chains.
#[derive(Clone, Debug)]
pub enum MonomerShape {
    /// Spherical segments of the given component count.
    Spherical(usize),
    /// Chains with one segment number per component.
    NonSpherical(Vec<Fx>),
    /// Heterosegmented chains.
    Heterosegmented(Vec<Vec<Fx>>),
}

/// Parameter set of the PC-SAFT equation of state: per-component arrays,
/// combined pair matrices, polar bookkeeping, association records, and the
/// records they came from.
#[derive(Clone, Debug)]
pub struct PcSaftParameters {
    /// Molar weight per component.
    pub molarweight: Vec<Fx>,
    /// Segment number per component.
    pub m: Vec<Fx>,
    /// Segment diameter per component.
    pub sigma: Vec<Fx>,
    /// Energy parameter per component.
    pub epsilon_k: Vec<Fx>,
    /// Dipole moment per component, zero where absent.
    pub mu: Vec<Fx>,
    /// Quadrupole moment per component, zero where absent.
    pub q: Vec<Fx>,
    /// Reduced squared dipole moment per component.
    pub mu2: Vec<Fx>,
    /// Reduced squared quadrupole moment per component.
    pub q2: Vec<Fx>,
    /// Association records per component.
    pub association_records: Vec<Vec<AssociationRecord>>,
    /// Cross-association entries of the binary records.
    pub binary_association: Vec<BinaryAssocEntry>,
    /// Pair diameters by the arithmetic mean.
    pub sigma_ij: Vec<Vec<Fx>>,
    /// Pair energies with the binary correction applied.
    pub epsilon_k_ij: Vec<Vec<Fx>>,
    /// Pair energies by the geometric mean.
    pub e_k_ij: Vec<Vec<Fx>>,
    /// Number of dipolar components.
    pub ndipole: usize,
    /// Number of quadrupolar components.
    pub nquadpole: usize,
    /// Indices of the dipolar components.
    pub dipole_comp: Vec<usize>,
    /// Indices of the quadrupolar components.
    pub quadpole_comp: Vec<usize>,
    /// Viscosity coefficients, rows by coefficient, when every component
    /// carries them.
    pub viscosity: Option<Vec<Vec<Fx>>>,
    /// Diffusion coefficients, rows by coefficient, when every component
    /// carries them.
    pub diffusion: Option<Vec<Vec<Fx>>>,
    /// Thermal-conductivity coefficients, rows by coefficient, when every
    /// component carries them.
    pub thermal_conductivity: Option<Vec<Vec<Fx>>>,
    /// The pure-component records the set was built from.
    pub pure_records: Vec<PureRecord>,
    /// The binary records the set was built from.
    pub binary_records: Option<Vec<Vec<PcSaftBinaryRecord>>>,
}

/// Whether a binary-record matrix is square with one row and column per
/// component.
pub open spec fn binary_shape_ok(br: Seq<Vec<PcSaftBinaryRecord>>, n: nat) -> bool {
    &&& br.len() == n
    &&& forall|i: int| 0 <= i < n ==> (#[trigger] br[i])@.len() == n
}

/// Whether a coefficient matrix is the column-wise collection of the
/// per-component coefficient arrays of the given length.
pub open spec fn coeff_rows_ok(
    rows: Seq<Seq<Fx>>,
    n: nat,
    nrows: nat,
) -> bool {
    &&& rows.len() == nrows
    &&& forall|r: int| 0 <= r < nrows ==> (#[trigger] rows[r]).len() == n
}

/// Whether column `i` of a four-coefficient matrix holds record `i`'s
/// coefficient array.
pub open spec fn coeff4_cols_ok(
    rows: Seq<Seq<Fx>>,
    records: Seq<PureRecord>,
    viscous: bool,
) -> bool {
    forall|c: int, i: int|
        0 <= c < rows.len() && 0 <= i < records.len() ==> (#[trigger] rows[c][i]) == (if viscous {
            match records[i].model_record.viscosity {
                Some(cs) => cs[c],
                None => Fx { m: 0 },
            }
        } else {
            match records[i].model_record.thermal_conductivity {
                Some(cs) => cs[c],
                None => Fx { m: 0 },
            }
        })
}

/// Whether column `i` of the five-coefficient diffusion matrix holds
/// record `i`'s coefficient array.
pub open spec fn coeff5_cols_ok(rows: Seq<Seq<Fx>>, records: Seq<PureRecord>) -> bool {
    forall|c: int, i: int|
        0 <= c < rows.len() && 0 <= i < records.len() ==> (#[trigger] rows[c][i]) == (
        match records[i].model_record.diffusion {
            Some(cs) => cs[c],
            None => Fx { m: 0 },
        })
}

impl PcSaftParameters {
    /// Assemble the parameter set from pure-component records and an
    /// optional matrix of binary records.
    ///
    /// Every per-component array copies its record field; the polar terms,
    /// pair matrices and polar component lists are computed; the
    /// entropy-scaling matrices exist exactly when every component brings
    /// the coefficients; the records themselves are kept.
    #[verifier::loop_isolation(false)]
    #[verifier::rlimit(100)]
    pub fn from_records(
        pure_records: Vec<PureRecord>,
        binary_records: Option<Vec<Vec<PcSaftBinaryRecord>>>,
    ) -> (r: Result<PcSaftParameters, EosError>)
        ensures
            match r {
                Ok(p) => {
                    let n = pure_records@.len();
                    &&& p.pure_records@ == pure_records@
                    &&& p.binary_records == binary_records
                    &&& p.m@.len() == n && p.sigma@.len() == n && p.epsilon_k@.len() == n
                    &&& p.mu@.len() == n && p.q@.len() == n && p.molarweight@.len() == n
                    &&& p.mu2@.len() == n && p.q2@.len() == n
                    &&& p.association_records@.len() == n
                    &&& p.sigma_ij@.len() == n && p.epsilon_k_ij@.len() == n && p.e_k_ij@.len()
                        == n
                    &&& forall|i: int|
                        0 <= i < n ==> (#[trigger] p.m@[i]) == pure_records@[i].model_record.m
                            && p.sigma@[i] == pure_records@[i].model_record.sigma
                            && p.epsilon_k@[i] == pure_records@[i].model_record.epsilon_k
                            && p.molarweight@[i] == pure_records@[i].molarweight
                            && p.mu@[i] == opt_or_zero(pure_records@[i].model_record.mu)
                            && p.q@[i] == opt_or_zero(pure_records@[i].model_record.q)
                            && p.association_records@[i]@
                            == pure_records@[i].model_record.association_records@
                    &&& forall|i: int|
                        0 <= i < n ==> (#[trigger] p.mu2@[i])@ == polar2_spec(
                            opt_or_zero(pure_records@[i].model_record.mu)@,
                            pure_records@[i].model_record.m@,
                            pow3_spec(pure_records@[i].model_record.sigma@),
                            pure_records@[i].model_record.epsilon_k@,
                        )
                    &&& forall|i: int|
                        0 <= i < n ==> (#[trigger] p.q2@[i])@ == polar2_spec(
                            opt_or_zero(pure_records@[i].model_record.q)@,
                            pure_records@[i].model_record.m@,
                            pow5_spec(pure_records@[i].model_record.sigma@),
                            pure_records@[i].model_record.epsilon_k@,
                        )
                    &&& forall|i: int| 0 <= i < n ==> (#[trigger] p.sigma_ij@[i])@.len() == n
                    &&& forall|i: int| 0 <= i < n ==> (#[trigger] p.e_k_ij@[i])@.len() == n
                    &&& forall|i: int| 0 <= i < n ==> (#[trigger] p.epsilon_k_ij@[i])@.len() == n
                    &&& forall|i: int, j: int|
                        0 <= i < n && 0 <= j < n ==> (#[trigger] p.sigma_ij@[i]@[j])@ == tdiv(
                            add_spec(
                                pure_records@[i].model_record.sigma@,
                                pure_records@[j].model_record.sigma@,
                            ),
                            2,
                        )
                    &&& forall|i: int, j: int|
                        0 <= i < n && 0 <= j < n ==> (#[trigger] p.e_k_ij@[i]@[j])@ == sqrt_total(
                            mul_spec(
                                pure_records@[i].model_record.epsilon_k@,
                                pure_records@[j].model_record.epsilon_k@,
                            ),
                        )
                    &&& forall|i: int, j: int|
                        0 <= i < n && 0 <= j < n ==> (#[trigger] p.epsilon_k_ij@[i]@[j])@ == (
                        match binary_records {
                            Some(br) => mul_spec(
                                p.e_k_ij@[i]@[j]@,
                                sub_spec(SCALE as int, br@[i]@[j].k_ij@),
                            ),
                            None => p.e_k_ij@[i]@[j]@,
                        })
                    &&& p.ndipole == p.dipole_comp@.len()
                    &&& p.nquadpole == p.quadpole_comp@.len()
                    &&& forall|ii: int|
                        0 <= ii < n ==> ((#[trigger] p.mu2@[ii])@ != 0 <==> exists|k: int|
                            0 <= k < p.dipole_comp@.len() && (#[trigger] p.dipole_comp@[k]) == ii)
                    &&& forall|ii: int|
                        0 <= ii < n ==> ((#[trigger] p.q2@[ii])@ != 0 <==> exists|k: int|
                            0 <= k < p.quadpole_comp@.len() && (#[trigger] p.quadpole_comp@[k])
                                == ii)
                    &&& forall|k1: int, k2: int|
                        0 <= k1 < k2 < p.dipole_comp@.len() ==> (#[trigger] p.dipole_comp@[k1])
                            < (#[trigger] p.dipole_comp@[k2])
                    &&& forall|k1: int, k2: int|
                        0 <= k1 < k2 < p.quadpole_comp@.len() ==> (
                        #[trigger] p.quadpole_comp@[k1]) < (#[trigger] p.quadpole_comp@[k2])
                    &&& (p.viscosity is Some <==> (forall|i: int|
                        0 <= i < n ==> (
                        #[trigger] pure_records@[i].model_record.viscosity) is Some))
                    &&& (p.diffusion is Some <==> (forall|i: int|
                        0 <= i < n ==> (
                        #[trigger] pure_records@[i].model_record.diffusion) is Some))
                    &&& (p.thermal_conductivity is Some <==> (forall|i: int|
                        0 <= i < n ==> (
                        #[trigger] pure_records@[i].model_record.thermal_conductivity) is Some))
                    &&& (p.viscosity matches Some(rows) ==> coeff_rows_ok(
                        rows@.map_values(|row: Vec<Fx>| row@),
                        n,
                        4,
                    ) && coeff4_cols_ok(
                        rows@.map_values(|row: Vec<Fx>| row@),
                        pure_records@,
                        true,
                    ))
                    &&& (p.diffusion matches Some(rows) ==> coeff_rows_ok(
                        rows@.map_values(|row: Vec<Fx>| row@),
                        n,
                        5,
                    ) && coeff5_cols_ok(rows@.map_values(|row: Vec<Fx>| row@), pure_records@))
                    &&& (p.thermal_conductivity matches Some(rows) ==> coeff_rows_ok(
                        rows@.map_values(|row: Vec<Fx>| row@),
                        n,
                        4,
                    ) && coeff4_cols_ok(
                        rows@.map_values(|row: Vec<Fx>| row@),
                        pure_records@,
                        false,
                    ))
                    &&& forall|k: int|
                        0 <= k < p.binary_association@.len() ==> (
                        #[trigger] p.binary_association@[k]).i < n
                            && p.binary_association@[k].j < n && (binary_records matches Some(br)
                            && br@[p.binary_association@[k].i as int]@[p.binary_association@[k].j as int].association
                            == Some(p.binary_association@[k].record))
                },
                Err(e) => e == EosError::IncompatibleParameters,
            },
            r is Ok <==> (match binary_records {
                Some(br) => binary_shape_ok(br@, pure_records@.len()),
                None => true,
            }),
    {
        let n = pure_records.len();
        // Where a binary matrix is given, its shape must match.
        match &binary_records {
            Some(br) => {
                if br.len() != n {
                    return Err(EosError::IncompatibleParameters);
                }
                let mut ck: usize = 0;
                while ck < n
                    invariant
                        0 <= ck <= n,
                        forall|p: int| 0 <= p < ck ==> (#[trigger] br@[p])@.len() == n,
                    decreases n - ck,
                {
                    if br[ck].len() != n {
                        return Err(EosError::IncompatibleParameters);
                    }
                    ck = ck + 1;
                }
            },
            None => {},
        }
        let mut molarweight: Vec<Fx> = Vec::new();
        let mut m: Vec<Fx> = Vec::new();
        let mut sigma: Vec<Fx> = Vec::new();
        let mut epsilon_k: Vec<Fx> = Vec::new();
        let mut mu: Vec<Fx> = Vec::new();
        let mut q: Vec<Fx> = Vec::new();
        let mut association_records: Vec<Vec<AssociationRecord>> = Vec::new();
        let mut i: usize = 0;
        while i < n
            invariant
                0 <= i <= n,
                molarweight@.len() == i && m@.len() == i && sigma@.len() == i && epsilon_k@.len()
                    == i && mu@.len() == i && q@.len() == i && association_records@.len() == i,
                forall|p: int|
                    0 <= p < i ==> (#[trigger] m@[p]) == pure_records@[p].model_record.m,
                forall|p: int|
                    0 <= p < i ==> (#[trigger] sigma@[p]) == pure_records@[p].model_record.sigma,
                forall|p: int|
                    0 <= p < i ==> (#[trigger] epsilon_k@[p])
                        == pure_records@[p].model_record.epsilon_k,
                forall|p: int|
                    0 <= p < i ==> (#[trigger] molarweight@[p]) == pure_records@[p].molarweight,
                forall|p: int|
                    0 <= p < i ==> (#[trigger] mu@[p]) == opt_or_zero(
                        pure_records@[p].model_record.mu,
                    ),
                forall|p: int|
                    0 <= p < i ==> (#[trigger] q@[p]) == opt_or_zero(
                        pure_records@[p].model_record.q,
                    ),
                forall|p: int|
                    0 <= p < i ==> (#[trigger] association_records@[p])@
                        == pure_records@[p].model_record.association_records@,
            decreases n - i,
        {
            let rec = &pure_records[i].model_record;
            m.push(rec.m);
            sigma.push(rec.sigma);
            epsilon_k.push(rec.epsilon_k);
            mu.push(unwrap_or_zero(rec.mu));
            q.push(unwrap_or_zero(rec.q));
            association_records.push(clone_assoc_vec(&rec.association_records));
            molarweight.push(pure_records[i].molarweight);
            i = i + 1;
        }
        // Reduced squared polar moments and the polar component lists.
        let polar_factor = Fx { m: POLAR_FACTOR_M };
        let mut mu2: Vec<Fx> = Vec::new();
        let mut q2: Vec<Fx> = Vec::new();
        let mut i2: usize = 0;
        while i2 < n
            invariant
                0 <= i2 <= n,
                mu2@.len() == i2 && q2@.len() == i2,
                forall|p: int|
                    0 <= p < i2 ==> (#[trigger] mu2@[p])@ == polar2_spec(
                        opt_or_zero(pure_records@[p].model_record.mu)@,
                        pure_records@[p].model_record.m@,
                        pow3_spec(pure_records@[p].model_record.sigma@),
                        pure_records@[p].model_record.epsilon_k@,
                    ),
                forall|p: int|
                    0 <= p < i2 ==> (#[trigger] q2@[p])@ == polar2_spec(
                        opt_or_zero(pure_records@[p].model_record.q)@,
                        pure_records@[p].model_record.m@,
                        pow5_spec(pure_records@[p].model_record.sigma@),
                        pure_records@[p].model_record.epsilon_k@,
                    ),
            decreases n - i2,
        {
            let si = sigma[i2];
            let s3 = si.mul(si).mul(si);
            let s5 = s3.mul(si).mul(si);
            let mi = m[i2];
            let ei = epsilon_k[i2];
            let mui = mu[i2];
            let qi = q[i2];
            mu2.push(mui.mul(mui).div(mi.mul(s3).mul(ei)).mul(polar_factor));
            q2.push(qi.mul(qi).div(mi.mul(s5).mul(ei)).mul(polar_factor));
            i2 = i2 + 1;
        }
        let mut dipole_comp: Vec<usize> = Vec::new();
        let mut quadpole_comp: Vec<usize> = Vec::new();
        let mut i3: usize = 0;
        while i3 < n
            invariant
                0 <= i3 <= n,
                mu2@.len() == n && q2@.len() == n,
                forall|k: int|
                    0 <= k < dipole_comp@.len() ==> (#[trigger] dipole_comp@[k]) < i3,
                forall|k: int|
                    0 <= k < quadpole_comp@.len() ==> (#[trigger] quadpole_comp@[k]) < i3,
                forall|ii: int|
                    0 <= ii < i3 ==> ((#[trigger] mu2@[ii])@ != 0 <==> exists|k: int|
                        0 <= k < dipole_comp@.len() && (#[trigger] dipole_comp@[k]) == ii),
                forall|ii: int|
                    0 <= ii < i3 ==> ((#[trigger] q2@[ii])@ != 0 <==> exists|k: int|
                        0 <= k < quadpole_comp@.len() && (#[trigger] quadpole_comp@[k]) == ii),
                forall|k1: int, k2: int|
                    0 <= k1 < k2 < dipole_comp@.len() ==> (#[trigger] dipole_comp@[k1]) < (
                    #[trigger] dipole_comp@[k2]),
                forall|k1: int, k2: int|
                    0 <= k1 < k2 < quadpole_comp@.len() ==> (#[trigger] quadpole_comp@[k1]) < (
                    #[trigger] quadpole_comp@[k2]),
            decreases n - i3,
        {
            if !mu2[i3].is_zero() {
                let ghost before = dipole_comp@;
                dipole_comp.push(i3);
                proof {
                    assert(dipole_comp@[dipole_comp@.len() - 1] == i3);
                    assert forall|k: int| 0 <= k < before.len() implies dipole_comp@[k]
                        == before[k] by {};
                }
            }
            if !q2[i3].is_zero() {
                let ghost before = quadpole_comp@;
                quadpole_comp.push(i3);
                proof {
                    assert(quadpole_comp@[quadpole_comp@.len() - 1] == i3);
                    assert forall|k: int| 0 <= k < before.len() implies quadpole_comp@[k]
                        == before[k] by {};
                }
            }
            i3 = i3 + 1;
        }
        let ndipole = dipole_comp.len();
        let nquadpole = quadpole_comp.len();
        // Cross-association entries of the binary matrix.
        let mut binary_association: Vec<BinaryAssocEntry> = Vec::new();
        match &binary_records {
            Some(br) => {
                let mut bi: usize = 0;
                while bi < n
                    invariant
                        0 <= bi <= n,
                        br@.len() == n,
                        forall|p: int| 0 <= p < n ==> (#[trigger] br@[p])@.len() == n,
                        forall|k: int|
                            0 <= k < binary_association@.len() ==> (
                            #[trigger] binary_association@[k]).i < n
                                && binary_association@[k].j < n
                                && br@[binary_association@[k].i as int]@[binary_association@[k].j as int].association
                                == Some(binary_association@[k].record),
                    decreases n - bi,
                {
                    let mut bj: usize = 0;
                    while bj < n
                        invariant
                            0 <= bi < n,
                            0 <= bj <= n,
                            br@.len() == n,
                            forall|p: int| 0 <= p < n ==> (#[trigger] br@[p])@.len() == n,
                            forall|k: int|
                                0 <= k < binary_association@.len() ==> (
                                #[trigger] binary_association@[k]).i < n
                                    && binary_association@[k].j < n
                                    && br@[binary_association@[k].i as int]@[binary_association@[k].j as int].association
                                    == Some(binary_association@[k].record),
                        decreases n - bj,
                    {
                        match br[bi][bj].association {
                            Some(rec) => {
                                binary_association.push(
                                    BinaryAssocEntry { i: bi, j: bj, record: rec },
                                );
                            },
                            None => {},
                        }
                        bj = bj + 1;
                    }
                    bi = bi + 1;
                }
            },
            None => {},
        }
        // Pair matrices.
        let mut sigma_ij: Vec<Vec<Fx>> = Vec::new();
        let mut e_k_ij: Vec<Vec<Fx>> = Vec::new();
        let mut epsilon_k_ij: Vec<Vec<Fx>> = Vec::new();
        let mut pi: usize = 0;
        while pi < n
            invariant
                0 <= pi <= n,
                sigma@.len() == n && epsilon_k@.len() == n,
                sigma_ij@.len() == pi && e_k_ij@.len() == pi && epsilon_k_ij@.len() == pi,
                forall|a: int| 0 <= a < pi ==> (#[trigger] sigma_ij@[a])@.len() == n,
                forall|a: int| 0 <= a < pi ==> (#[trigger] e_k_ij@[a])@.len() == n,
                forall|a: int| 0 <= a < pi ==> (#[trigger] epsilon_k_ij@[a])@.len() == n,
                forall|a: int, b: int|
                    0 <= a < pi && 0 <= b < n ==> (#[trigger] sigma_ij@[a]@[b])@ == tdiv(
                        add_spec(
                            pure_records@[a].model_record.sigma@,
                            pure_records@[b].model_record.sigma@,
                        ),
                        2,
                    ),
                forall|a: int, b: int|
                    0 <= a < pi && 0 <= b < n ==> (#[trigger] e_k_ij@[a]@[b])@ == sqrt_total(
                        mul_spec(
                            pure_records@[a].model_record.epsilon_k@,
                            pure_records@[b].model_record.epsilon_k@,
                        ),
                    ),
                forall|a: int, b: int|
                    0 <= a < pi && 0 <= b < n ==> (#[trigger] epsilon_k_ij@[a]@[b])@ == (
                    match binary_records {
                        Some(br) => mul_spec(
                            e_k_ij@[a]@[b]@,
                            sub_spec(SCALE as int, br@[a]@[b].k_ij@),
                        ),
                        None => e_k_ij@[a]@[b]@,
                    }),
            decreases n - pi,
        {
            let mut row_s: Vec<Fx> = Vec::new();
            let mut row_e: Vec<Fx> = Vec::new();
            let mut row_ek: Vec<Fx> = Vec::new();
            let mut pj: usize = 0;
            while pj < n
                invariant
                    0 <= pi < n,
                    0 <= pj <= n,
                    sigma@.len() == n && epsilon_k@.len() == n,
                    row_s@.len() == pj && row_e@.len() == pj && row_ek@.len() == pj,
                    forall|b: int|
                        0 <= b < pj ==> (#[trigger] row_s@[b])@ == tdiv(
                            add_spec(
                                pure_records@[pi as int].model_record.sigma@,
                                pure_records@[b].model_record.sigma@,
                            ),
                            2,
                        ),
                    forall|b: int|
                        0 <= b < pj ==> (#[trigger] row_e@[b])@ == sqrt_total(
                            mul_spec(
                                pure_records@[pi as int].model_record.epsilon_k@,
                                pure_records@[b].model_record.epsilon_k@,
                            ),
                        ),
                    forall|b: int|
                        0 <= b < pj ==> (#[trigger] row_ek@[b])@ == (match binary_records {
                            Some(br) => mul_spec(
                                row_e@[b]@,
                                sub_spec(SCALE as int, br@[pi as int]@[b].k_ij@),
                            ),
                            None => row_e@[b]@,
                        }),
                decreases n - pj,
            {
                let sij = sigma[pi].add(sigma[pj]).div_int(2);
                let eij = epsilon_k[pi].mul(epsilon_k[pj]).sqrt();
                let ekij = match &binary_records {
                    Some(br) => eij.mul(Fx::one().sub(br[pi][pj].k_ij)),
                    None => eij,
                };
                row_s.push(sij);
                row_e.push(eij);
                row_ek.push(ekij);
                pj = pj + 1;
            }
            sigma_ij.push(row_s);
            e_k_ij.push(row_e);
            epsilon_k_ij.push(row_ek);
            pi = pi + 1;
        }
        // Entropy-scaling coefficient matrices, where complete.
        let viscosity = collect_coeffs4(&pure_records, true);
        let thermal_conductivity = collect_coeffs4(&pure_records, false);
        let diffusion = collect_coeffs5(&pure_records);
        Ok(
            PcSaftParameters {
                molarweight,
                m,
                sigma,
                epsilon_k,
                mu,
                q,
                mu2,
                q2,
                association_records,
                binary_association,
                sigma_ij,
                epsilon_k_ij,
                e_k_ij,
                ndipole,
                nquadpole,
                dipole_comp,
                quadpole_comp,
                viscosity,
                diffusion,
                thermal_conductivity,
                pure_records,
                binary_records,
            },
        )
    }

    /// The records the parameter set was built from.
    pub fn records(&self) -> (r: (&Vec<PureRecord>, Option<&Vec<Vec<PcSaftBinaryRecord>>>))
        ensures
            r.0 == &self.pure_records,
            match r.1 {
                Some(b) => self.binary_records == Some(*b),
                None => self.binary_records is None,
            },
    {
        (&self.pure_records, self.binary_records.as_ref())
    }

    /// The monomer shape the hard-sphere treatment sees: chains with the
    /// segment numbers of this set.
    pub fn monomer_shape(&self) -> (r: MonomerShape)
        ensures
            r matches MonomerShape::NonSpherical(v) && v@ == self.m@,
    {
        MonomerShape::NonSpherical(crate::state::clone_fx_vec(&self.m))
    }

    /// Temperature-dependent effective hard-sphere diameters:
    /// `sigma_i (1 - 0.12 exp(-3 eps_i / T))`.
    pub fn hs_diameter(&self, temperature: Fx) -> (r: Vec<Fx>)
        requires
            self.epsilon_k@.len() == self.sigma@.len(),
        ensures
            r@.len() == self.sigma@.len(),
            forall|i: int|
                0 <= i < r@.len() ==> (#[trigger] r@[i])@ == hs_diameter_spec(
                    temperature@,
                    self.sigma@[i]@,
                    self.epsilon_k@[i]@,
                ),
    {
        let ti = Fx::one().div(temperature).mul_int(-3);
        let c12 = Fx::from_ratio(12, 100);
        let mut out: Vec<Fx> = Vec::new();
        let mut i: usize = 0;
        while i < self.sigma.len()
            invariant
                0 <= i <= self.sigma@.len(),
                self.epsilon_k@.len() == self.sigma@.len(),
                ti@ == crate::fixed::clip(div_spec(SCALE as int, temperature@) * -3),
                c12@ == div_spec(crate::fixed::clip(12 * SCALE), crate::fixed::clip(100 * SCALE)),
                out@.len() == i,
                forall|p: int|
                    0 <= p < i ==> (#[trigger] out@[p])@ == hs_diameter_spec(
                        temperature@,
                        self.sigma@[p]@,
                        self.epsilon_k@[p]@,
                    ),
            decreases self.sigma@.len() - i,
        {
            let e = crate::transcend::exp_fx(ti.mul(self.epsilon_k[i]));
            let d = e.mul(c12).sub(Fx::one()).neg().mul(self.sigma[i]);
            out.push(d);
            i = i + 1;
        }
        out
    }

    /// The association strength of a component pair:
    /// `(exp(eps_ab / T) - 1) kappa_ab (sigma_i sigma_j)^(3/2)`.
    pub fn association_strength(
        &self,
        temperature: Fx,
        comp_i: usize,
        comp_j: usize,
        assoc_ij: PcSaftAssociationRecord,
    ) -> (r: Fx)
        requires
            comp_i < self.sigma@.len(),
            comp_j < self.sigma@.len(),
        ensures
            r@ == ({
                let em1 = sub_spec(
                    exp_spec(mul_spec(div_spec(SCALE as int, temperature@), assoc_ij.epsilon_k_ab@)),
                    SCALE as int,
                );
                let ss = mul_spec(self.sigma@[comp_i as int]@, self.sigma@[comp_j as int]@);
                mul_spec(mul_spec(em1, assoc_ij.kappa_ab@), mul_spec(ss, sqrt_total(ss)))
            }),
    {
        let em1 = crate::transcend::exp_fx(
            Fx::one().div(temperature).mul(assoc_ij.epsilon_k_ab),
        ).sub(Fx::one());
        let ss = self.sigma[comp_i].mul(self.sigma[comp_j]);
        em1.mul(assoc_ij.kappa_ab).mul(ss.mul(ss.sqrt()))
    }

    /// The combining rule for cross association: geometric mean of the
    /// volumes, arithmetic mean of the energies.
    pub fn combining_rule(parameters_i: PcSaftAssociationRecord, parameters_j:
        PcSaftAssociationRecord) -> (r: PcSaftAssociationRecord)
        ensures
            r.kappa_ab@ == sqrt_total(mul_spec(parameters_i.kappa_ab@, parameters_j.kappa_ab@)),
            r.epsilon_k_ab@ == tdiv(
                add_spec(parameters_i.epsilon_k_ab@, parameters_j.epsilon_k_ab@),
                2,
            ),
    {
        PcSaftAssociationRecord {
            kappa_ab: parameters_i.kappa_ab.mul(parameters_j.kappa_ab).sqrt(),
            epsilon_k_ab: parameters_i.epsilon_k_ab.add(parameters_j.epsilon_k_ab).div_int(2),
        }
    }

    /// Overwrite pair parameters with whatever a binary record specifies.
    pub fn update_binary(
        parameters_ij: &mut PcSaftAssociationRecord,
        binary_parameters: PcSaftBinaryAssociationRecord,
    )
        ensures
            final (parameters_ij).kappa_ab == (match binary_parameters.kappa_ab {
                Some(k) => k,
                None => old(parameters_ij).kappa_ab,
            }),
            final (parameters_ij).epsilon_k_ab == (match binary_parameters.epsilon_k_ab {
                Some(e) => e,
                None => old(parameters_ij).epsilon_k_ab,
            }),
    {
        match binary_parameters.kappa_ab {
            Some(k) => {
                parameters_ij.kappa_ab = k;
            },
            None => {},
        }
        match binary_parameters.epsilon_k_ab {
            Some(e) => {
                parameters_ij.epsilon_k_ab = e;
            },
            None => {},
        }
    }
}

/// The effective hard-sphere diameter of one component.
pub open spec fn hs_diameter_spec(t: int, sigma: int, eps: int) -> int {
    let ti = crate::fixed::clip(div_spec(SCALE as int, t) * -3);
    let e = exp_spec(mul_spec(ti, eps));
    let c12 = div_spec(crate::fixed::clip(12 * SCALE), crate::fixed::clip(100 * SCALE));
    mul_spec(crate::fixed::clip(-sub_spec(mul_spec(e, c12), SCALE as int)), sigma)
}

/// An element-wise copy of an association-record vector.
pub fn clone_assoc_vec(v: &Vec<AssociationRecord>) -> (r: Vec<AssociationRecord>)
    ensures
        r@ == v@,
{
    let mut out: Vec<AssociationRecord> = Vec::new();
    let mut i: usize = 0;
    while i < v.len()
        invariant
            0 <= i <= v@.len(),
            out@ == v@.subrange(0, i as int),
        decreases v@.len() - i,
    {
        out.push(v[i]);
        i = i + 1;
    }
    proof {
        assert(out@ =~= v@);
    }
    out
}

/// The four-coefficient entropy-scaling matrix, where every record brings
/// the coefficients: rows by coefficient, columns by component.
fn collect_coeffs4(pure_records: &Vec<PureRecord>, viscous: bool) -> (r: Option<Vec<Vec<Fx>>>)
    ensures
        viscous ==> (r is Some <==> (forall|i: int|
            0 <= i < pure_records@.len() ==> (
            #[trigger] pure_records@[i].model_record.viscosity) is Some)),
        !viscous ==> (r is Some <==> (forall|i: int|
            0 <= i < pure_records@.len() ==> (
            #[trigger] pure_records@[i].model_record.thermal_conductivity) is Some)),
        r matches Some(rows) ==> coeff_rows_ok(
            rows@.map_values(|row: Vec<Fx>| row@),
            pure_records@.len(),
            4,
        ) && coeff4_cols_ok(rows@.map_values(|row: Vec<Fx>| row@), pure_records@, viscous),
{
    let n = pure_records.len();
    let mut i: usize = 0;
    while i < n
        invariant
            0 <= i <= n,
            n == pure_records@.len(),
            viscous ==> forall|p: int|
                0 <= p < i ==> (#[trigger] pure_records@[p].model_record.viscosity) is Some,
            !viscous ==> forall|p: int|
                0 <= p < i ==> (
                #[trigger] pure_records@[p].model_record.thermal_conductivity) is Some,
        decreases n - i,
    {
        let absent = if viscous {
            pure_records[i].model_record.viscosity.is_none()
        } else {
            pure_records[i].model_record.thermal_conductivity.is_none()
        };
        if absent {
            return None;
        }
        i = i + 1;
    }
    let mut rows: Vec<Vec<Fx>> = Vec::new();
    let mut c: usize = 0;
    while c < 4
        invariant
            0 <= c <= 4,
            n == pure_records@.len(),
            rows@.len() == c,
            forall|p: int| 0 <= p < c ==> (#[trigger] rows@[p])@.len() == n,
            forall|p: int, q: int|
                0 <= p < c && 0 <= q < n ==> (#[trigger] rows@[p]@[q]) == (if viscous {
                    match pure_records@[q].model_record.viscosity {
                        Some(cs) => cs[p],
                        None => Fx { m: 0 },
                    }
                } else {
                    match pure_records@[q].model_record.thermal_conductivity {
                        Some(cs) => cs[p],
                        None => Fx { m: 0 },
                    }
                }),
        decreases 4 - c,
    {
        let mut row: Vec<Fx> = Vec::new();
        let mut k: usize = 0;
        while k < n
            invariant
                0 <= c < 4,
                0 <= k <= n,
                n == pure_records@.len(),
                row@.len() == k,
                forall|q: int|
                    0 <= q < k ==> (#[trigger] row@[q]) == (if viscous {
                        match pure_records@[q].model_record.viscosity {
                            Some(cs) => cs[c as int],
                            None => Fx { m: 0 },
                        }
                    } else {
                        match pure_records@[q].model_record.thermal_conductivity {
                            Some(cs) => cs[c as int],
                            None => Fx { m: 0 },
                        }
                    }),
            decreases n - k,
        {
            let v = if viscous {
                match pure_records[k].model_record.viscosity {
                    Some(cs) => cs[c],
                    None => Fx::zero(),
                }
            } else {
                match pure_records[k].model_record.thermal_conductivity {
                    Some(cs) => cs[c],
                    None => Fx::zero(),
                }
            };
            row.push(v);
            k = k + 1;
        }
        rows.push(row);
        c = c + 1;
    }
    proof {
        let mapped = rows@.map_values(|row: Vec<Fx>| row@);
        assert forall|p: int| 0 <= p < mapped.len() implies (#[trigger] mapped[p]).len()
            == n as nat by {
            assert(mapped[p] == rows@[p]@);
        };
        assert forall|c2: int, i2: int|
            0 <= c2 < mapped.len() && 0 <= i2 < pure_records@.len() implies (
        #[trigger] mapped[c2][i2]) == (if viscous {
            match pure_records@[i2].model_record.viscosity {
                Some(cs) => cs[c2],
                None => Fx { m: 0 },
            }
        } else {
            match pure_records@[i2].model_record.thermal_conductivity {
                Some(cs) => cs[c2],
                None => Fx { m: 0 },
            }
        }) by {
            assert(mapped[c2] == rows@[c2]@);
        };
    }
    Some(rows)
}

/// The five-coefficient diffusion matrix, where every record brings the
/// coefficients.
fn collect_coeffs5(pure_records: &Vec<PureRecord>) -> (r: Option<Vec<Vec<Fx>>>)
    ensures
        r is Some <==> (forall|i: int|
            0 <= i < pure_records@.len() ==> (
            #[trigger] pure_records@[i].model_record.diffusion) is Some),
        r matches Some(rows) ==> coeff_rows_ok(
            rows@.map_values(|row: Vec<Fx>| row@),
            pure_records@.len(),
            5,
        ) && coeff5_cols_ok(rows@.map_values(|row: Vec<Fx>| row@), pure_records@),
{
    let n = pure_records.len();
    let mut i: usize = 0;
    while i < n
        invariant
            0 <= i <= n,
            n == pure_records@.len(),
            forall|p: int|
                0 <= p < i ==> (#[trigger] pure_records@[p].model_record.diffusion) is Some,
        decreases n - i,
    {
        if pure_records[i].model_record.diffusion.is_none() {
            return None;
        }
        i = i + 1;
    }
    let mut rows: Vec<Vec<Fx>> = Vec::new();
    let mut c: usize = 0;
    while c < 5
        invariant
            0 <= c <= 5,
            n == pure_records@.len(),
            rows@.len() == c,
            forall|p: int| 0 <= p < c ==> (#[trigger] rows@[p])@.len() == n,
            forall|p: int, q: int|
                0 <= p < c && 0 <= q < n ==> (#[trigger] rows@[p]@[q]) == (
                match pure_records@[q].model_record.diffusion {
                    Some(cs) => cs[p],
                    None => Fx { m: 0 },
                }),
        decreases 5 - c,
    {
        let mut row: Vec<Fx> = Vec::new();
        let mut k: usize = 0;
        while k < n
            invariant
                0 <= c < 5,
                0 <= k <= n,
                n == pure_records@.len(),
                row@.len() == k,
                forall|q: int|
                    0 <= q < k ==> (#[trigger] row@[q]) == (
                    match pure_records@[q].model_record.diffusion {
                        Some(cs) => cs[c as int],
                        None => Fx { m: 0 },
                    }),
            decreases n - k,
        {
            let v = match pure_records[k].model_record.diffusion {
                Some(cs) => cs[c],
                None => Fx::zero(),
            };
            row.push(v);
            k = k + 1;
        }
        rows.push(row);
        c = c + 1;
    }
    proof {
        let mapped = rows@.map_values(|row: Vec<Fx>| row@);
        assert forall|p: int| 0 <= p < mapped.len() implies (#[trigger] mapped[p]).len()
            == n as nat by {
            assert(mapped[p] == rows@[p]@);
        };
        assert forall|c2: int, i2: int|
            0 <= c2 < mapped.len() && 0 <= i2 < pure_records@.len() implies (
        #[trigger] mapped[c2][i2]) == (match pure_records@[i2].model_record.diffusion {
            Some(cs) => cs[c2],
            None => Fx { m: 0 },
        }) by {
            assert(mapped[c2] == rows@[c2]@);
        };
    }
    Some(rows)
}

impl PcSaftParameters {
    /// The binary dispersion parameters as a matrix, where binary records
    /// exist.
    pub fn k_ij(&self) -> (r: Option<Vec<Vec<Fx>>>)
        ensures
            r is Some <==> self.binary_records is Some,
            r matches Some(m) ==> {
                let br = self.binary_records->0;
                &&& m@.len() == br@.len()
                &&& forall|i: int|
                    0 <= i < m@.len() ==> (#[trigger] m@[i])@.len() == br@[i]@.len()
                &&& forall|i: int, j: int|
                    0 <= i < m@.len() && 0 <= j < m@[i]@.len() ==> (#[trigger] m@[i]@[j])
                        == br@[i]@[j].k_ij
            },
    {
        match &self.binary_records {
            None => None,
            Some(br) => {
                let mut rows: Vec<Vec<Fx>> = Vec::new();
                let mut i: usize = 0;
                while i < br.len()
                    invariant
                        0 <= i <= br@.len(),
                        rows@.len() == i,
                        forall|p: int|
                            0 <= p < i ==> (#[trigger] rows@[p])@.len() == br@[p]@.len(),
                        forall|p: int, q: int|
                            0 <= p < i && 0 <= q < rows@[p]@.len() ==> (#[trigger] rows@[p]@[q])
                                == br@[p]@[q].k_ij,
                    decreases br@.len() - i,
                {
                    let mut row: Vec<Fx> = Vec::new();
                    let mut j: usize = 0;
                    while j < br[i].len()
                        invariant
                            0 <= i < br@.len(),
                            0 <= j <= br@[i as int]@.len(),
                            row@.len() == j,
                            forall|q: int|
                                0 <= q < j ==> (#[trigger] row@[q]) == br@[i as int]@[q].k_ij,
                        decreases br@[i as int]@.len() - j,
                    {
                        row.push(br[i][j].to_k_ij());
                        j = j + 1;
                    }
                    rows.push(row);
                    i = i + 1;
                }
                Some(rows)
            },
        }
    }
}

} // verus!
