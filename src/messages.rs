//! Inputs to and outputs of the handshake transitions, and the envelope
//! that carries handshake bytes over the wire.
use vstd::prelude::*;

verus! {

/// Starts a client handshake (`NX`): the initiator has no static key.
#[derive(Clone, Copy, Debug, PartialEq, Eq, Structural)]
pub struct ClientInitiate;

/// Starts a node-to-node handshake (`IX`) with this node's static key.
pub struct NodeInitiate {
    pub local_identity: Vec<u8>,
}

/// The first handshake message, ready to be framed and sent to the peer.
pub struct AuthRequestOutput {
    pub data: Vec<u8>,
}

/// The peer's reply to the first handshake message.
pub struct AuthResponseInput {
    pub data: Vec<u8>,
}

/// The wire envelope that carries handshake bytes between the two sides.
pub struct AuthMessage {
    pub data: Vec<u8>,
}

impl NodeInitiate {
    pub fn new(local_identity: Vec<u8>) -> (r: NodeInitiate)
        ensures
            r.local_identity@ == local_identity@,
    {
        NodeInitiate { local_identity }
    }
}

impl AuthRequestOutput {
    /// The message bytes.
    pub fn as_bytes(&self) -> (r: &[u8])
        ensures
            r@ == self.data@,
    {
        self.data.as_slice()
    }
}

impl AuthResponseInput {
    pub fn new(data: Vec<u8>) -> (r: AuthResponseInput)
        ensures
            r.data@ == data@,
    {
        AuthResponseInput { data }
    }

    /// The reply bytes.
    pub fn as_bytes(&self) -> (r: &[u8])
        ensures
            r@ == self.data@,
    {
        self.data.as_slice()
    }
}

impl From<AuthRequestOutput> for AuthMessage {
    fn from(src: AuthRequestOutput) -> AuthMessage {
        AuthMessage { data: src.data }
    }
}

impl vstd::std_specs::convert::FromSpecImpl<AuthRequestOutput> for AuthMessage {
    open spec fn obeys_from_spec() -> bool {
        true
    }

    open spec fn from_spec(src: AuthRequestOutput) -> AuthMessage {
        AuthMessage { data: src.data }
    }
}

impl From<AuthMessage> for AuthRequestOutput {
    fn from(src: AuthMessage) -> AuthRequestOutput {
        AuthRequestOutput { data: src.data }
    }
}

impl vstd::std_specs::convert::FromSpecImpl<AuthMessage> for AuthRequestOutput {
    open spec fn obeys_from_spec() -> bool {
        true
    }

    open spec fn from_spec(src: AuthMessage) -> AuthRequestOutput {
        AuthRequestOutput { data: src.data }
    }
}

impl From<AuthMessage> for AuthResponseInput {
    fn from(src: AuthMessage) -> AuthResponseInput {
        AuthResponseInput { data: src.data }
    }
}

impl vstd::std_specs::convert::FromSpecImpl<AuthMessage> for AuthResponseInput {
    open spec fn obeys_from_spec() -> bool {
        true
    }

    open spec fn from_spec(src: AuthMessage) -> AuthResponseInput {
        AuthResponseInput { data: src.data }
    }
}

} // verus!
