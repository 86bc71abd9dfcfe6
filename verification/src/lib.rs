//! Groth16 proof verification over BN254 for an age predicate whose second public
//! input is the current UTC date.
//!
//! The modules follow the data flow: decimal numerals become field elements
//! ([`field`]), coordinate triples become curve points ([`curve`]), the key and proof
//! documents become typed values and are put through the pairing equation
//! ([`circom_proof`], [`groth16`]), and the clock is turned into the date that the
//! circuit commits to ([`date`]). [`contract`] strings these together.

pub mod circom_proof;
pub mod contract;
pub mod curve;
pub mod date;
pub mod decimal;
pub mod error;
pub mod field;
pub mod msg;
pub mod groth16;

pub use crate::error::ContractError;
