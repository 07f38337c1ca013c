//! State-transition core of a small multi-party ledger application.
//!
//! The library tracks a finite registration budget ("swigs"), registers
//! per-actor records ("imbibers") whose byte data is derived deterministically
//! from the actor's identity, and decides a gated two-party transfer ("jump
//! ring travel") from a capability check, a profile check and a payment check.
//! Every handler is a pure function over an explicit [`state::Hub`]: it takes
//! the persistent state and the incoming command as values and returns the new
//! state and the outbound messages, so the whole protocol is verified.

pub mod contract;
pub mod dna;
pub mod error;
pub mod msg;
pub mod species;
pub mod state;
