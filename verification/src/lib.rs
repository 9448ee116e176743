//! The verified core of a ground-magnetic-field estimator built on
//! spherical elementary current systems: a grid of hypothetical current
//! poles above the Earth is fitted, through a truncated-SVD regularized
//! least-squares solve, to sparse magnetometer observations, and the fitted
//! amplitudes then predict the field anywhere.
//!
//! Floating-point arithmetic cannot be verified, so every scalar crosses
//! this crate as an opaque IEEE-754 bit pattern ([`scalar::Scalar`]) and the
//! arithmetic itself — trigonometry, the Biot-Savart kernel, the
//! decomposition — is left to the unverified shell around the library.
//! What this crate implements, with proofs, is everything the estimator
//! decides and arranges: the floating-point meaning of `==`, `<` and `<=`
//! as pure bit logic, grid assembly and its ordering, the shape and
//! flattening of transfer matrices, the singular-value truncation and its
//! monotonicity, the transfer-matrix caches keyed by value equality of
//! location lists, and the fit/predict state machine with its transactional
//! commit and its error guards.

use vstd::prelude::*;

pub mod geo;
pub mod matrix;
pub mod model;
pub mod scalar;
pub mod solver;
pub mod sphere;

verus! {

/// Mean Earth radius in meters.
pub const R_EARTH: u64 = 6371000;

/// The failures the estimation core can report.
#[derive(Clone, Copy, Debug, PartialEq, Eq, Structural)]
pub enum SecsError {
    /// A sampling range whose end does not lie strictly above its start.
    InvalidRange,
    /// The singular-value decomposition of the transfer matrix failed.
    DecompositionFailed,
    /// A prediction was requested before any successful fit.
    ModelNotFitted,
    /// The fitted amplitude vector no longer matches the pole count.
    AmplitudeDimensionMismatch,
}

} // verus!
