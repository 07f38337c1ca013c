//! Terminal errors returned by the handlers.

use vstd::prelude::*;

verus! {

/// Every way a command can fail. All failures are terminal for the current
/// command; none is retried.
#[derive(Clone, Copy, Debug, PartialEq, Eq, Structural)]
pub enum ContractError {
    /// The registration budget is exhausted (`swigs` is zero).
    OutOfSwigs,
    /// The attached funds do not meet the required payment.
    NotEnoughFunds,
    /// The caller's registered sapience grade is below the portal's minimum.
    NotSapientEnough,
    /// The traveler profile lacks the required `cyberdized` flag.
    NotACyborg,
    /// The caller has no actor record in the registry.
    NotRegistered,
    /// The derivation parameters are out of range: the requested length
    /// exceeds the digest width, or the modulus is zero.
    DnaOutOfRange,
    /// A previously dispatched outbound request reported failure through its
    /// asynchronous acknowledgment.
    NothingToSeeHere,
}

impl ContractError {
    /// A short description, for serialization boundaries only.
    pub fn as_str(&self) -> (r: &str)
        ensures
            r@.len() > 0,
    {
        let s = match self {
            ContractError::OutOfSwigs => "no swigs of the potion are left",
            ContractError::NotEnoughFunds => "the attached funds are not enough",
            ContractError::NotSapientEnough => "the caller is not sapient enough for this portal",
            ContractError::NotACyborg => "the traveler is not cyberdized",
            ContractError::NotRegistered => "the caller has not imbibed the potion",
            ContractError::DnaOutOfRange => "the dna parameters are out of range",
            ContractError::NothingToSeeHere => "nothing to see here",
        };
        proof {
            reveal_strlit("no swigs of the potion are left");
            reveal_strlit("the attached funds are not enough");
            reveal_strlit("the caller is not sapient enough for this portal");
            reveal_strlit("the traveler is not cyberdized");
            reveal_strlit("the caller has not imbibed the potion");
            reveal_strlit("the dna parameters are out of range");
            reveal_strlit("nothing to see here");
        }
        s
    }
}

} // verus!
