//! The contract's one question: is the holder of a proof of age today?

use vstd::prelude::*;
use crate::circom_proof::CircomProof;
use crate::date::{date_text, lemma_date_text_is_decimal, project};
use crate::error::ContractError;
use crate::groth16::{
    circuit_commitment,
    lemma_commitment_is_decimal,
    verify_outcome,
    KeyModel,
    ProofModel,
    PublicSignals,
    Verifier,
};
use crate::decimal::is_decimal;
use crate::field::fr_of_decimal;
use crate::msg::QueryMsg;

verus! {

/// The answer to a proof presented at the time `t`, for a decoded key and a decoded
/// proof.
///
/// Where the clock has no date text the answer is `false`, whatever the proof. Else
/// the proof is held against two public inputs: the circuit's commitment and today's
/// date.
pub open spec fn proof_age_outcome(key: Option<KeyModel>, t: int, presented: Option<ProofModel>) -> Result<
    bool,
    ContractError,
> {
    match date_text(t) {
        None => Ok(false),
        Some(today) => {
            match presented {
                None => Err(ContractError::MalformedProof),
                Some(p) => {
                    if is_decimal(circuit_commitment()) && is_decimal(today) {
                        verify_outcome(
                            key,
                            p,
                            seq![fr_of_decimal(circuit_commitment()), fr_of_decimal(today)],
                        )
                    } else {
                        Err(ContractError::MalformedScalar)
                    }
                },
            }
        },
    }
}

/// A clock outside the years 0000 to 9999 is answered with `false`, whatever the key
/// and the proof, and be they malformed.
pub proof fn lemma_unprojectable_clock(
    key: Option<KeyModel>,
    t: int,
    presented: Option<ProofModel>,
)
    requires
        t < -62167219200 || t > 253402300799,
    ensures
        proof_age_outcome(key, t, presented) == Ok::<bool, ContractError>(false),
{
}

/// From the year 1000 on the date is a numeral, and the answer to a well-formed proof
/// is the verifier's, for the circuit's commitment and the date as public inputs.
/// Before it the date begins with a zero, which no field element is read from.
pub proof fn lemma_proof_age_is_verification(key: Option<KeyModel>, t: int, presented: ProofModel)
    requires
        -62167219200 <= t <= 253402300799,
    ensures
        t >= -30610224000 ==> proof_age_outcome(key, t, Some(presented)) == verify_outcome(
            key,
            presented,
            seq![fr_of_decimal(circuit_commitment()), fr_of_decimal(date_text(t)->0)],
        ),
        t < -30610224000 ==> proof_age_outcome(key, t, Some(presented)) == Err::<
            bool,
            ContractError,
        >(ContractError::MalformedScalar),
{
    lemma_commitment_is_decimal();
    lemma_date_text_is_decimal(t);
}

/// Two signals are well formed if each is a numeral, and denote the two scalars that
/// the numerals denote.
proof fn lemma_two_signals(signals: PublicSignals, first: Seq<char>, second: Seq<char>)
    requires
        signals.0@.len() == 2,
        signals.0@[0]@ == first,
        signals.0@[1]@ == second,
    ensures
        signals.well_formed() <==> is_decimal(first) && is_decimal(second),
        signals.values() == seq![fr_of_decimal(first), fr_of_decimal(second)],
{
    assert(signals.values() =~= seq![fr_of_decimal(first), fr_of_decimal(second)]);
}

/// Decides whether `proof` shows its holder to be of age on the day that
/// `unix_seconds`, the trusted clock, falls on.
pub fn proof_age(verifier: Verifier, unix_seconds: i64, proof: CircomProof) -> (r: Result<
    bool,
    ContractError,
>)
    ensures
        r == proof_age_outcome(
            verifier.key_document().decoded(),
            unix_seconds as int,
            proof.decoded(),
        ),
{
    match project(unix_seconds) {
        Some(curr_date) => {
            let public_signals = PublicSignals::from_values(curr_date);
            let proof = match proof.to_proof() {
                Ok(p) => p,
                Err(e) => {
                    return Err(e);
                },
            };
            proof {
                lemma_two_signals(
                    public_signals,
                    circuit_commitment(),
                    date_text(unix_seconds as int)->0,
                );
            }
            let inputs = match public_signals.get() {
                Ok(v) => v,
                Err(e) => {
                    return Err(e);
                },
            };
            verifier.verify_proof(proof, inputs.as_slice())
        },
        None => Ok(false),
    }
}

/// Answers a query put at the time `unix_seconds`.
pub fn query(verifier: Verifier, unix_seconds: i64, msg: QueryMsg) -> (r: Result<bool, ContractError>)
    ensures
        msg matches QueryMsg::ProofAge { proof } && r == proof_age_outcome(
            verifier.key_document().decoded(),
            unix_seconds as int,
            proof.decoded(),
        ),
{
    match msg {
        QueryMsg::ProofAge { proof } => proof_age(verifier, unix_seconds, proof),
    }
}

} // verus!
