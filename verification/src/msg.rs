//! Inbound commands, outbound messages and the values that travel with them.

use vstd::prelude::*;
use crate::species::{Species, Traveler};

verus! {

/// Parameters of the initial configuration.
pub struct InstantiateMsg {
    pub dna_length: usize,
    pub dna_modulus: u8,
}

/// An inbound command, routed by [`crate::contract::execute`].
pub enum ExecuteMsg {
    /// Register the caller as an imbiber.
    ImbibePotion { name: String, species: Species },
    /// Ask for a gated transfer through the jump ring at `portal`.
    StepThroughJumpRing { portal: String, destination: String, traveler: Traveler },
}

/// An inbound query, routed by [`crate::contract::query`].
pub enum QueryMsg {
    /// How much of the registration budget is left.
    NumberOfSwigs,
}

/// Answer to [`QueryMsg::NumberOfSwigs`].
#[derive(Clone, Copy, Debug, PartialEq, Eq, Structural)]
pub struct SwigResponse {
    pub swigs: u8,
}

/// One unit of attached funds: a denomination and an amount.
pub struct Coin {
    pub denom: String,
    pub amount: u128,
}

/// What the ledger reports about the caller of a command: its identity and
/// the funds attached to the call.
pub struct MessageInfo {
    pub sender: String,
    pub funds: Vec<Coin>,
}

/// Payload of an outbound cross-party call.
pub enum PortalMsg {
    /// Instruct the portal to move the traveler to `to`.
    JumpRingTravel { to: String },
    /// Notify the authority of a fresh registration.
    Snitch { address: String, name: String, species: Species },
}

/// One outbound cross-party call, dispatched when the enclosing command
/// commits. `reply_on_error` asks for an acknowledgment only on failure.
pub struct OutboundMsg {
    pub contract_addr: String,
    pub msg: PortalMsg,
    pub funds: Vec<Coin>,
    pub reply_on_error: bool,
}

/// What a handler returns on success: the outbound calls it dispatched.
pub struct Response {
    pub messages: Vec<OutboundMsg>,
}

impl Response {
    /// A response that dispatches nothing.
    pub fn empty() -> (r: Response)
        ensures
            r.messages@.len() == 0,
    {
        Response { messages: Vec::new() }
    }
}

/// The asynchronous acknowledgment of a previously dispatched outbound call.
pub enum ReplyOutcome {
    /// The downstream call succeeded.
    Completed,
    /// The downstream call failed, with its error text.
    Failed(String),
}

} // verus!
