//! The proof in its wire form, as the proving toolchain writes it.

use vstd::prelude::*;
use crate::curve::{decode_g1, decode_g2, lemma_g1_arity, lemma_g2_arity, G1Point, G2Point};
use crate::error::ContractError;
use crate::groth16::{Proof, ProofModel};

verus! {

/// A proof document: Jacobian coordinates as numerals, and two tags.
#[derive(Clone, Debug, PartialEq)]
pub struct CircomProof {
    pub pi_a: Vec<String>,
    pub pi_b: Vec<Vec<String>>,
    pub pi_c: Vec<String>,
    /// The proof system that the toolchain names. Carried along, never read.
    pub protocol: String,
    /// The curve that the toolchain names. Carried along, never read.
    pub curve: String,
}

/// The proof that three coordinate arrays denote, if each denotes a group element.
pub open spec fn decode_proof(
    pi_a: Seq<Seq<char>>,
    pi_b: Seq<Seq<Seq<char>>>,
    pi_c: Seq<Seq<char>>,
) -> Option<ProofModel> {
    if decode_g1(pi_a) is Some && decode_g2(pi_b) is Some && decode_g1(pi_c) is Some {
        Some(ProofModel { a: decode_g1(pi_a)->0, b: decode_g2(pi_b)->0, c: decode_g1(pi_c)->0 })
    } else {
        None
    }
}

/// A proof document with an array of the wrong arity denotes no proof.
pub proof fn lemma_proof_arity(
    pi_a: Seq<Seq<char>>,
    pi_b: Seq<Seq<Seq<char>>>,
    pi_c: Seq<Seq<char>>,
)
    requires
        pi_a.len() != 3 || pi_c.len() != 3 || pi_b.len() != 3 || exists|i: int|
            0 <= i < 3 && pi_b[i].len() != 2,
    ensures
        decode_proof(pi_a, pi_b, pi_c) is None,
{
    if pi_a.len() != 3 {
        lemma_g1_arity(pi_a);
    } else if pi_c.len() != 3 {
        lemma_g1_arity(pi_c);
    } else {
        lemma_g2_arity(pi_b);
    }
}

impl CircomProof {
    /// The proof that the document denotes, if it denotes one.
    pub open spec fn decoded(&self) -> Option<ProofModel> {
        decode_proof(self.pi_a.deep_view(), self.pi_b.deep_view(), self.pi_c.deep_view())
    }

    /// Decodes the document into a typed proof.
    ///
    /// It fails where `pi_a` or `pi_c` does not have three coordinates or `pi_b` not
    /// three pairs, where a coordinate is no canonical numeral, and where a point is
    /// off its curve or outside the subgroup of prime order. Nothing is cut off or
    /// filled in.
    pub fn to_proof(self) -> (r: Result<Proof, ContractError>)
        ensures
            r matches Ok(p) ==> self.decoded() == Some(p@),
            r matches Err(e) ==> self.decoded() is None && e == ContractError::MalformedProof,
    {
        let a = match G1Point::from_decimals(&self.pi_a) {
            Some(p) => p,
            None => {
                return Err(ContractError::MalformedProof);
            },
        };
        let b = match G2Point::from_decimals(&self.pi_b) {
            Some(p) => p,
            None => {
                return Err(ContractError::MalformedProof);
            },
        };
        let c = match G1Point::from_decimals(&self.pi_c) {
            Some(p) => p,
            None => {
                return Err(ContractError::MalformedProof);
            },
        };
        Ok(Proof::new(a, b, c))
    }
}

} // verus!
