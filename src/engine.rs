//! What the Noise engine reports back after one handshake step.
use vstd::prelude::*;

use crate::pattern::{needs_local_static, HandshakePattern};

verus! {

/// Keys and binding derived once the handshake is complete.
pub struct HandshakeResult<C> {
    /// Cipher for traffic from the initiator to the responder.
    pub initiator_cipher: C,
    /// Cipher for traffic from the responder to the initiator.
    pub responder_cipher: C,
    /// Digest of the whole handshake transcript.
    pub channel_binding: Vec<u8>,
    /// The peer's static public key, where the pattern transmits one.
    pub remote_identity: Option<Vec<u8>>,
}

/// Whether a step left the handshake open or finished it.
pub enum HandshakeStatus<S, C> {
    /// More messages are due; the engine state to continue from.
    InProgress(S),
    /// The handshake is done.
    Complete(HandshakeResult<C>),
}

/// One step of the engine: its status and the message bytes it produced
/// (when writing) or the payload it recovered (when reading).
pub struct HandshakeOutput<S, C> {
    pub status: HandshakeStatus<S, C>,
    pub payload: Vec<u8>,
}

/// What happened when the engine was built and asked to write the first
/// message.
pub enum InitiateStep<S, C> {
    /// Building the engine state failed.
    InitFailed,
    /// Writing the message failed.
    WriteFailed,
    /// The message was written.
    Written(HandshakeOutput<S, C>),
}

/// What happened when the engine was handed the peer's reply.
pub enum ReadStep<S, C> {
    /// The reply did not authenticate or decrypt.
    ReadFailed,
    /// The reply was read.
    Read(HandshakeOutput<S, C>),
}

/// How the engine is to be built for a handshake.
pub struct HandshakeParams {
    pub is_initiator: bool,
    pub pattern: HandshakePattern,
    /// Bound into the transcript; here, the intended responder's identifier.
    pub prologue: Vec<u8>,
    /// This side's static private key, where it has one.
    pub local_identity: Option<Vec<u8>>,
    /// Bytes to carry in the first message.
    pub payload: Vec<u8>,
}

impl HandshakeParams {
    /// The parameters fit together: a side that the pattern asks for a
    /// static key has one.
    pub open spec fn valid(&self) -> bool {
        needs_local_static(self.pattern, self.is_initiator) ==> self.local_identity is Some
    }

    /// Checks the parameters before any cryptographic work is done.
    pub fn validate(&self) -> (r: Result<(), crate::error::Error>)
        ensures
            r is Ok <==> self.valid(),
            r is Err ==> r == Err::<(), _>(crate::error::Error::HandshakeInit),
    {
        if self.pattern.needs_local_static(self.is_initiator) && self.local_identity.is_none() {
            Err(crate::error::Error::HandshakeInit)
        } else {
            Ok(())
        }
    }
}

} // verus!
