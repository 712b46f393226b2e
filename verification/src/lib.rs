//! Thermodynamic property engine for residual Helmholtz-energy models.
//!
//! Every physical quantity is carried in reduced units by the exact
//! fixed-point scalar of [`fixed`]; derivatives of the Helmholtz energy are
//! obtained through the truncated-Taylor dual numbers of [`taylor`] and the
//! gradient duals of [`grad`], never by finite differences. A [`model`]
//! sums an ordered list of contributions with an ideal-gas reference; a
//! [`state`] owns temperature, volume and mole numbers and evaluates any
//! property as a derivative of the total Helmholtz energy. The [`solver`]
//! resolves a state from whatever combination of variables determines one,
//! [`critical`] locates critical points and spinodals, [`stability`] runs
//! the tangent-plane test, [`estimator`] holds models against data, and
//! [`pcsaft`] assembles the parameter sets of that model family.

pub mod critical;
pub mod error;
pub mod estimator;
pub mod fixed;
pub mod grad;
pub mod model;
pub mod pcsaft;
pub mod solver;
pub mod stability;
pub mod state;
pub mod taylor;
pub mod transcend;
