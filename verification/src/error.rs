use vstd::prelude::*;

verus! {

/// Why a request could not be evaluated.
///
/// A proof that is well formed but does not satisfy the pairing equation is no error:
/// it is the answer `false`.
#[derive(Clone, Copy, Debug, PartialEq, Eq, Structural)]
pub enum ContractError {
    /// A field element is not written as a canonical base-10 numeral.
    MalformedScalar,
    /// The proof document has an array of the wrong arity, a coordinate that is no
    /// numeral, or a point outside its group.
    MalformedProof,
    /// The same, in the verifying-key document; also a key whose input basis does not
    /// fit the number of public inputs.
    MalformedVerifyingKey,
    /// The public signals are not a JSON array of strings.
    MalformedPublicSignals,
    /// The pairing product has no value in the target group.
    PairingUndefined,
}

impl ContractError {
    /// A sentence for the variant, for logs and responses.
    pub fn message(&self) -> (r: String)
        ensures
            r@ == self.message_text(),
    {
        match self {
            ContractError::MalformedScalar => "malformed scalar".to_owned(),
            ContractError::MalformedProof => "malformed proof".to_owned(),
            ContractError::MalformedVerifyingKey => "malformed verifying key".to_owned(),
            ContractError::MalformedPublicSignals => "malformed public signals".to_owned(),
            ContractError::PairingUndefined => "pairing undefined".to_owned(),
        }
    }

    /// The text of [`Self::message`].
    pub open spec fn message_text(&self) -> Seq<char> {
        match self {
            ContractError::MalformedScalar => "malformed scalar"@,
            ContractError::MalformedProof => "malformed proof"@,
            ContractError::MalformedVerifyingKey => "malformed verifying key"@,
            ContractError::MalformedPublicSignals => "malformed public signals"@,
            ContractError::PairingUndefined => "pairing undefined"@,
        }
    }
}

} // verus!
