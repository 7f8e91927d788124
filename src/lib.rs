//! The secret handshake: a mutual-authentication key exchange between two
//! peers that hold long-term Ed25519 identities and share a network key.
//!
//! - `message`: the four fixed-width messages, built and checked.
//! - `keys`: identities, the three shared secrets, the session keys.
//! - `handshake`: the client and server state machines.
//! - `primitives`: the cryptographic primitives they rest on.
use vstd::prelude::*;

pub mod bytes;
pub mod handshake;
pub mod keys;
pub mod message;
pub mod primitives;

verus! {

} // verus!
