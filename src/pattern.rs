use vstd::prelude::*;

verus! {

/// The Noise handshake patterns this exchange uses.
///
/// In both, the responder transmits its static key (`X`). With `NX` the
/// initiator has no static key; with `IX` it transmits its own in the first
/// message. Both take exactly two messages.
#[derive(Clone, Copy, Debug, PartialEq, Eq, Structural)]
pub enum HandshakePattern {
    NX,
    IX,
}

/// Whether the party on the given side must hold a static key of its own.
pub open spec fn needs_local_static(pattern: HandshakePattern, is_initiator: bool) -> bool {
    !is_initiator || pattern == HandshakePattern::IX
}

/// Length of the first handshake message: the initiator's ephemeral key,
/// its static key where the pattern sends one, and the payload. No key is
/// agreed yet, so nothing carries an authentication tag.
pub open spec fn request_len_spec(pattern: HandshakePattern, dh_len: nat, payload_len: nat) -> nat {
    match pattern {
        HandshakePattern::NX => dh_len + payload_len,
        HandshakePattern::IX => dh_len + dh_len + payload_len,
    }
}

impl HandshakePattern {
    /// Whether the party on the given side needs a static key of its own.
    pub fn needs_local_static(&self, is_initiator: bool) -> (r: bool)
        ensures
            r == needs_local_static(*self, is_initiator),
    {
        !is_initiator || matches!(self, HandshakePattern::IX)
    }

    /// Expected length of the initiator's first message for a key exchange
    /// whose public keys take `dh_len` bytes; `None` where it does not fit
    /// in `usize`.
    pub fn request_len(&self, dh_len: usize, payload_len: usize) -> (r: Option<usize>)
        ensures
            r matches Some(n) ==> n == request_len_spec(*self, dh_len as nat, payload_len as nat),
            r is None <==> request_len_spec(*self, dh_len as nat, payload_len as nat) > usize::MAX,
    {
        match self {
            HandshakePattern::NX => dh_len.checked_add(payload_len),
            HandshakePattern::IX => match dh_len.checked_add(dh_len) {
                Some(keys) => keys.checked_add(payload_len),
                None => None,
            },
        }
    }
}

} // verus!
