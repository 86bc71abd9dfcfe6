//! The messages of the contract.

use vstd::prelude::*;
use crate::circom_proof::CircomProof;

verus! {

/// What the contract is set up with.
#[derive(Clone, Debug, PartialEq)]
pub struct InstantiateMsg {
    /// The least age that a holder is to prove. The verifying key fixes the predicate:
    /// verification does not consult this value.
    pub min_age: String,
}

/// What the contract can be asked.
#[derive(Clone, Debug, PartialEq)]
pub enum QueryMsg {
    /// Does `proof` show that its holder is of age today?
    ProofAge { proof: CircomProof },
}

} // verus!
