//! Identity store and activation engine for switching between several
//! SSH-backed git identities.
//!
//! The engine keeps an ordered list of accounts and at most one active
//! account name. Every operation is a function from that state to a new
//! state and a result; reading and writing the files that make the state
//! durable is left to the caller.

pub mod account;
pub mod error;
pub mod model;
pub mod service;
pub mod sshkey;
pub mod state;
