//! Escrow trade client: the contract model, the wire messages, the token
//! binding rules and the phase machine that moves a trade from agreement
//! over registration to the exchange of the escrow token.
//!
//! Nothing in this crate performs I/O. Every operation that needs the
//! network or the wallet is a decision function: it takes what happened
//! (an [`nostr::Event`]) and answers with what to do next (an
//! [`nostr::Action`]); the caller performs the action and comes back with
//! the outcome.

pub mod ecash;
pub mod encoding;
pub mod error;
pub mod escrow_client;
pub mod json;
pub mod model;
pub mod nostr;
pub mod wire;
