//! Error taxonomy of the engine.
//!
//! Validation errors are detected before any iteration, domain errors when an
//! iterate would leave the physical region, convergence errors when an
//! iteration budget runs out, and missing-capability errors when a model
//! cannot support the requested property. Solvers return either a fully
//! valid result or one of these; never a partial state.

use vstd::prelude::*;

verus! {

/// A typed failure of a thermodynamic computation.
#[derive(Clone, Copy, PartialEq, Eq, Structural, Debug)]
pub enum EosError {
    /// The mole-number vector's length differs from the model's component
    /// count: model components, then given length.
    IncompatibleComponents(usize, usize),
    /// The combination of specified variables is over- or under-determined.
    UndeterminedState,
    /// A required physical quantity left its domain and recovery failed.
    DomainError,
    /// The iteration budget ran out before the tolerance was met; carries
    /// the exhausted budget.
    NotConverged(usize),
    /// A mass-specific property was requested of a model without molar
    /// weights.
    MissingMolarWeight,
    /// A correlation-based property was requested of a model without the
    /// correlation's coefficients.
    MissingCoefficients,
    /// Parameter records cannot be combined as requested.
    IncompatibleParameters,
}

impl EosError {
    /// A short human-readable description.
    pub fn message(&self) -> (r: String)
        ensures
            r@.len() > 0,
    {
        match self {
            EosError::IncompatibleComponents(_, _) => {
                proof {
                    reveal_strlit("mole numbers are incompatible with the component count");
                }
                String::from_str("mole numbers are incompatible with the component count")
            },
            EosError::UndeterminedState => {
                proof {
                    reveal_strlit("state specification is over- or under-determined");
                }
                String::from_str("state specification is over- or under-determined")
            },
            EosError::DomainError => {
                proof {
                    reveal_strlit("a physical quantity left its domain");
                }
                String::from_str("a physical quantity left its domain")
            },
            EosError::NotConverged(_) => {
                proof {
                    reveal_strlit("iteration budget exhausted before convergence");
                }
                String::from_str("iteration budget exhausted before convergence")
            },
            EosError::MissingMolarWeight => {
                proof {
                    reveal_strlit("no molar weights: mass-specific properties unavailable");
                }
                String::from_str("no molar weights: mass-specific properties unavailable")
            },
            EosError::MissingCoefficients => {
                proof {
                    reveal_strlit("no correlation coefficients for the requested property");
                }
                String::from_str("no correlation coefficients for the requested property")
            },
            EosError::IncompatibleParameters => {
                proof {
                    reveal_strlit("parameter records cannot be combined as requested");
                }
                String::from_str("parameter records cannot be combined as requested")
            },
        }
    }
}

} // verus!
