//! Thermodynamic properties of water and steam on the IAPWS-IF97 formulation.
//!
//! Every physical quantity is carried as the IEEE-754 bit pattern of a
//! double-precision number, held in a `u64`: the numerical work is done by the
//! `seuif97` crate behind trusted wrappers, and everything this crate does with
//! the values — regime dispatch, assembly of the result record, the latent-heat
//! derivation — is verified on those bit patterns.

pub mod evaluator;
pub mod laws;
pub mod props;
pub mod regimes;
pub mod softfloat;
