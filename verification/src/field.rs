//! The two prime fields of BN254 and how their elements are read from text.
//!
//! The elements themselves are those of `ark-bn254`: this library never looks inside
//! one. What a contract says of an element it says of its value, the canonical
//! representative in `0 <= v < modulus`.

use vstd::prelude::*;
use std::str::FromStr;
use crate::decimal::{decimal_value, is_decimal};
use crate::error::ContractError;

pub use ark_bn254::{Fq, Fr};

verus! {

/// `Fp256` of ark-ff, an element of a prime field of up to 256 bits. Opaque: an
/// element is known by its value alone, [`fq_value`] or [`fr_value`].
#[verifier::external_type_specification]
#[verifier::external_body]
#[verifier::reject_recursive_types(P)]
pub struct ExFp256<P>(ark_ff::Fp256<P>);

/// `FqParameters` of ark-bn254, the marker of the base field.
#[verifier::external_type_specification]
#[verifier::external_body]
pub struct ExFqParameters(ark_bn254::FqParameters);

/// `FrParameters` of ark-bn254, the marker of the scalar field.
#[verifier::external_type_specification]
#[verifier::external_body]
pub struct ExFrParameters(ark_bn254::FrParameters);

/// The characteristic of the base field, over which the curve's coordinates live.
pub open spec fn fq_modulus() -> nat {
    21888242871839275222246405745257275088696311157297823662689037894645226208583nat
}

/// The characteristic of the scalar field, the order of the groups, in which public
/// inputs live.
pub open spec fn fr_modulus() -> nat {
    21888242871839275222246405745257275088548364400416034343698204186575808495617nat
}

/// The value of a base-field element.
pub uninterp spec fn fq_value(f: Fq) -> nat;

/// The value of a scalar-field element.
pub uninterp spec fn fr_value(f: Fr) -> nat;

/// The base-field element that a numeral denotes.
pub open spec fn fq_of_decimal(s: Seq<char>) -> nat {
    decimal_value(s) % fq_modulus()
}

/// The scalar-field element that a numeral denotes.
pub open spec fn fr_of_decimal(s: Seq<char>) -> nat {
    decimal_value(s) % fr_modulus()
}

/// `Fq::from_str` of ark-ff, at BN254's base field. Believed, not proved: it accepts
/// exactly the canonical numerals (it turns down the empty string, any character that
/// is no ASCII digit, and a leading zero before further digits), and the element it
/// builds, digit by digit in the field, is the numeral's value modulo the
/// characteristic.
#[verifier::external_body]
pub(crate) fn fq_from_str(s: &str) -> (r: Result<Fq, ()>)
    ensures
        r is Ok <==> is_decimal(s@),
        r matches Ok(f) ==> fq_value(f) == fq_of_decimal(s@),
{
    Fq::from_str(s)
}

/// `Fr::from_str` of ark-ff, at BN254's scalar field. Believed, not proved: as
/// [`fq_from_str`], with the scalar field's characteristic.
#[verifier::external_body]
pub(crate) fn fr_from_str(s: &str) -> (r: Result<Fr, ()>)
    ensures
        r is Ok <==> is_decimal(s@),
        r matches Ok(f) ==> fr_value(f) == fr_of_decimal(s@),
{
    Fr::from_str(s)
}

/// Reads a base-field element from a canonical base-10 numeral.
///
/// A numeral at or above the characteristic is not refused: it denotes its residue.
pub fn str_to_fq(s: &str) -> (r: Result<Fq, ContractError>)
    ensures
        r is Ok <==> is_decimal(s@),
        r matches Ok(f) ==> fq_value(f) == fq_of_decimal(s@),
        r matches Err(e) ==> e == ContractError::MalformedScalar,
{
    match fq_from_str(s) {
        Ok(f) => Ok(f),
        Err(_) => Err(ContractError::MalformedScalar),
    }
}

/// Reads a scalar-field element, a public input, from a canonical base-10 numeral.
///
/// A numeral at or above the characteristic is not refused: it denotes its residue.
pub fn str_to_fr(s: &str) -> (r: Result<Fr, ContractError>)
    ensures
        r is Ok <==> is_decimal(s@),
        r matches Ok(f) ==> fr_value(f) == fr_of_decimal(s@),
        r matches Err(e) ==> e == ContractError::MalformedScalar,
{
    match fr_from_str(s) {
        Ok(f) => Ok(f),
        Err(_) => Err(ContractError::MalformedScalar),
    }
}

} // verus!
