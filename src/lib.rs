//! Initiator side of an attested, Noise-based authenticated key exchange.
//!
//! The handshake runs through three states, `Start`, `AuthPending` and
//! `Ready`. Each transition consumes the state it starts from. The Noise
//! engine itself (Diffie-Hellman, AEAD, hashing) is supplied by the caller:
//! the transitions here take what the engine reported and decide the next
//! state, the outgoing message, or the error.
use vstd::prelude::*;

pub mod engine;
pub mod error;
pub mod key_image;
pub mod laws;
pub mod messages;
pub mod pattern;
pub mod states;

verus! {

} // verus!
