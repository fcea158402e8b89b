use vstd::prelude::*;

verus! {

/// Why a handshake transition failed.
#[derive(Clone, Copy, Debug, PartialEq, Eq, Structural)]
pub enum Error {
    /// The pattern, role and identity given to the engine do not fit together.
    HandshakeInit,
    /// The engine could not produce the outgoing handshake message.
    HandshakeWrite,
    /// The incoming handshake message did not authenticate or decrypt.
    HandshakeRead,
    /// The peer's reply did not finish the handshake.
    HandshakeNotComplete,
    /// The handshake finished on a message that should have left it open.
    EarlyHandshakeComplete,
}

/// Why a byte blob could not be turned into a fixed-size value.
#[derive(Clone, Copy, Debug, PartialEq, Eq, Structural)]
pub enum ConversionError {
    /// The blob does not have the length the value needs.
    ArrayCastError,
}

} // verus!
