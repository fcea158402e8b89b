//! The handshake states and the transitions between them.
use vstd::prelude::*;

use crate::engine::{
    HandshakeOutput, HandshakeParams, HandshakeResult, HandshakeStatus, InitiateStep, ReadStep,
};
use crate::error::Error;
use crate::messages::{AuthRequestOutput, AuthResponseInput, ClientInitiate, NodeInitiate};
use crate::pattern::HandshakePattern;

verus! {

/// Length of the placeholder evidence a node sends in its first message.
pub const EVIDENCE_PLACEHOLDER_LEN: usize = 32;

/// The initial state: only the identifier of the intended responder.
pub struct Start {
    pub responder_id: Vec<u8>,
}

/// A handshake whose first message has gone out; holds the engine state
/// that continues it. Its fields are private: it is only made by a `Start`
/// transition and only consumed by the completing one.
pub struct AuthPending<S> {
    state: S,
    pattern: HandshakePattern,
}

/// The established session: one cipher per direction and the channel
/// binding. It is only made by the completing transition and does not
/// change afterwards.
pub struct Ready<C> {
    /// Encrypts traffic to the responder.
    writer: C,
    /// Decrypts traffic from the responder.
    reader: C,
    /// Digest of the whole handshake transcript.
    binding: Vec<u8>,
}

impl<C> Ready<C> {
    pub closed spec fn spec_writer(&self) -> C {
        self.writer
    }

    pub closed spec fn spec_reader(&self) -> C {
        self.reader
    }

    pub closed spec fn spec_binding(&self) -> Seq<u8> {
        self.binding@
    }

    /// The cipher for traffic to the responder.
    pub fn writer(&self) -> (r: &C)
        ensures
            *r == self.spec_writer(),
    {
        &self.writer
    }

    /// The cipher for traffic from the responder.
    pub fn reader(&self) -> (r: &C)
        ensures
            *r == self.spec_reader(),
    {
        &self.reader
    }

    /// The channel binding: a digest of the whole handshake transcript.
    pub fn binding(&self) -> (r: &[u8])
        ensures
            r@ == self.spec_binding(),
    {
        self.binding.as_slice()
    }

    /// Hands the two ciphers and the binding to the session layer.
    pub fn into_parts(self) -> (r: (C, C, Vec<u8>))
        ensures
            r.0 == self.spec_writer(),
            r.1 == self.spec_reader(),
            r.2@ == self.spec_binding(),
    {
        (self.writer, self.reader, self.binding)
    }
}

/// What becomes of the first step: the engine state that the pending
/// handshake holds, or the error.
pub open spec fn initiate_spec<S, C>(params_valid: bool, step: InitiateStep<S, C>) -> Result<S, Error> {
    if !params_valid {
        Err(Error::HandshakeInit)
    } else {
        match step {
            InitiateStep::InitFailed => Err(Error::HandshakeInit),
            InitiateStep::WriteFailed => Err(Error::HandshakeWrite),
            InitiateStep::Written(out) => match out.status {
                HandshakeStatus::InProgress(s) => Ok(s),
                HandshakeStatus::Complete(_) => Err(Error::EarlyHandshakeComplete),
            },
        }
    }
}

/// The bytes the engine wrote, where it wrote any.
pub open spec fn written_bytes<S, C>(step: InitiateStep<S, C>) -> Seq<u8> {
    match step {
        InitiateStep::Written(out) => out.payload@,
        _ => Seq::empty(),
    }
}

/// What becomes of the completing step: the derived keys, or the error.
pub open spec fn complete_spec<S, C>(step: ReadStep<S, C>) -> Result<HandshakeResult<C>, Error> {
    match step {
        ReadStep::ReadFailed => Err(Error::HandshakeRead),
        ReadStep::Read(out) => match out.status {
            HandshakeStatus::InProgress(_) => Err(Error::HandshakeNotComplete),
            HandshakeStatus::Complete(res) => Ok(res),
        },
    }
}

/// The payload the peer's reply carried, where it was read.
pub open spec fn read_payload<S, C>(step: ReadStep<S, C>) -> Seq<u8> {
    match step {
        ReadStep::Read(out) => out.payload@,
        _ => Seq::empty(),
    }
}

/// The result of a `Start` transition matches what `initiate_spec` decides.
pub open spec fn initiated<S, C>(
    r: Result<(AuthPending<S>, AuthRequestOutput), Error>,
    pattern: HandshakePattern,
    params_valid: bool,
    step: InitiateStep<S, C>,
) -> bool {
    match initiate_spec(params_valid, step) {
        Ok(s) => r matches Ok(ok) && ok.0.state() == s && ok.0.pattern() == pattern
            && ok.1.data@ == written_bytes(step),
        Err(e) => r matches Err(re) && re == e,
    }
}

/// The result of the completing transition matches what `complete_spec`
/// decides.
pub open spec fn completed<S, C>(r: Result<(Ready<C>, Vec<u8>), Error>, step: ReadStep<S, C>) -> bool {
    match complete_spec(step) {
        Ok(res) => r matches Ok(ok) && ok.0.spec_writer() == res.initiator_cipher
            && ok.0.spec_reader() == res.responder_cipher && ok.0.spec_binding()
            == res.channel_binding@ && ok.1@ == read_payload(step),
        Err(e) => r matches Err(re) && re == e,
    }
}

/// Decides the completing transition from the engine's report on reading
/// the peer's reply. The peer's payload (its evidence) comes back unverified
/// beside the session.
pub fn complete_from_step<S, C>(step: ReadStep<S, C>) -> (r: Result<(Ready<C>, Vec<u8>), Error>)
    ensures
        completed(r, step),
{
    match step {
        ReadStep::ReadFailed => Err(Error::HandshakeRead),
        ReadStep::Read(output) => match output.status {
            HandshakeStatus::InProgress(_) => Err(Error::HandshakeNotComplete),
            HandshakeStatus::Complete(result) => Ok(
                (
                    Ready {
                        writer: result.initiator_cipher,
                        reader: result.responder_cipher,
                        binding: result.channel_binding,
                    },
                    output.payload,
                ),
            ),
        },
    }
}

impl<S> AuthPending<S> {
    /// The engine state the handshake continues from.
    pub closed spec fn state(&self) -> S {
        self.state
    }

    /// The pattern the handshake was started with.
    pub closed spec fn pattern(&self) -> HandshakePattern {
        self.pattern
    }

    /// The pattern the handshake was started with.
    pub fn handshake_pattern(&self) -> (r: HandshakePattern)
        ensures
            r == self.pattern(),
    {
        self.pattern
    }

    /// Borrows the engine state, so the caller can run the reading step.
    pub fn engine_state(&self) -> (r: &S)
        ensures
            *r == self.state(),
    {
        &self.state
    }
}

/// Turns the engine's report on the first message into the pending state
/// and the message to send. The first message must leave the handshake
/// open: a handshake that is already complete is refused.
fn parse_handshake_output<S, C>(
    output: HandshakeOutput<S, C>,
    pattern: HandshakePattern,
) -> (r: Result<(AuthPending<S>, AuthRequestOutput), Error>)
    ensures
        initiated(r, pattern, true, InitiateStep::Written(output)),
{
    match output.status {
        HandshakeStatus::InProgress(state) => Ok(
            (AuthPending { state, pattern }, AuthRequestOutput { data: output.payload }),
        ),
        HandshakeStatus::Complete(_) => Err(Error::EarlyHandshakeComplete),
    }
}

/// Decides a `Start` transition from the engine's report on building the
/// state and writing the first message, for parameters that fit together
/// (see `HandshakeParams::validate`).
pub fn initiate_from_step<S, C>(pattern: HandshakePattern, step: InitiateStep<S, C>) -> (r: Result<
    (AuthPending<S>, AuthRequestOutput),
    Error,
>)
    ensures
        initiated(r, pattern, true, step),
{
    match step {
        InitiateStep::InitFailed => Err(Error::HandshakeInit),
        InitiateStep::WriteFailed => Err(Error::HandshakeWrite),
        InitiateStep::Written(output) => parse_handshake_output(output, pattern),
    }
}

impl Start {
    pub fn new(responder_id: Vec<u8>) -> (r: Start)
        ensures
            r.responder_id@ == responder_id@,
    {
        Start { responder_id }
    }

    /// How to build the engine for a client handshake: initiator, `NX`, the
    /// responder's identifier as prologue, no static key, empty payload.
    pub fn client_params(&self, input: &ClientInitiate) -> (r: HandshakeParams)
        ensures
            r.is_initiator,
            r.pattern == HandshakePattern::NX,
            r.prologue@ == self.responder_id@,
            r.local_identity is None,
            r.payload@.len() == 0,
            r.valid(),
    {
        HandshakeParams {
            is_initiator: true,
            pattern: HandshakePattern::NX,
            prologue: self.responder_id.clone(),
            local_identity: None,
            payload: Vec::new(),
        }
    }

    /// How to build the engine for a node handshake: initiator, `IX`, the
    /// responder's identifier as prologue, the node's static key, and a
    /// zeroed evidence placeholder as payload.
    pub fn node_params(&self, input: &NodeInitiate) -> (r: HandshakeParams)
        ensures
            r.is_initiator,
            r.pattern == HandshakePattern::IX,
            r.prologue@ == self.responder_id@,
            r.local_identity matches Some(id) && id@ == input.local_identity@,
            r.payload@ == Seq::new(EVIDENCE_PLACEHOLDER_LEN as nat, |i: int| 0u8),
            r.valid(),
    {
        let mut payload: Vec<u8> = Vec::new();
        let mut i: usize = 0;
        while i < EVIDENCE_PLACEHOLDER_LEN
            invariant
                i <= EVIDENCE_PLACEHOLDER_LEN,
                payload@ == Seq::new(i as nat, |j: int| 0u8),
            decreases EVIDENCE_PLACEHOLDER_LEN - i,
        {
            payload.push(0u8);
            i = i + 1;
        }
        HandshakeParams {
            is_initiator: true,
            pattern: HandshakePattern::IX,
            prologue: self.responder_id.clone(),
            local_identity: Some(input.local_identity.clone()),
            payload,
        }
    }

    /// `Start` + `ClientInitiate` => `AuthPending` + `AuthRequestOutput`.
    /// `engine` builds the engine state from `client_params` and writes the
    /// first message; what it reports decides the result.
    pub fn try_next_client<S, C, F>(self, input: ClientInitiate, engine: F) -> (r: Result<
        (AuthPending<S>, AuthRequestOutput),
        Error,
    >) where F: FnOnce(HandshakeParams) -> InitiateStep<S, C>
        requires
            forall|p: HandshakeParams| engine.requires((p,)),
        ensures
            exists|p: HandshakeParams, step: InitiateStep<S, C>|
                engine.ensures((p,), step) && p.pattern == HandshakePattern::NX
                    && p.prologue@ == self.responder_id@ && p.local_identity is None
                    && initiated(r, HandshakePattern::NX, true, step),
    {
        let params = self.client_params(&input);
        let step = engine(params);
        initiate_from_step(HandshakePattern::NX, step)
    }

    /// `Start` + `NodeInitiate` => `AuthPending` + `AuthRequestOutput`.
    /// `engine` builds the engine state from `node_params` and writes the
    /// first message; what it reports decides the result.
    pub fn try_next_node<S, C, F>(self, input: NodeInitiate, engine: F) -> (r: Result<
        (AuthPending<S>, AuthRequestOutput),
        Error,
    >) where F: FnOnce(HandshakeParams) -> InitiateStep<S, C>
        requires
            forall|p: HandshakeParams| engine.requires((p,)),
        ensures
            exists|p: HandshakeParams, step: InitiateStep<S, C>|
                engine.ensures((p,), step) && p.pattern == HandshakePattern::IX
                    && p.prologue@ == self.responder_id@
                    && (p.local_identity matches Some(id) && id@ == input.local_identity@)
                    && initiated(r, HandshakePattern::IX, true, step),
    {
        let params = self.node_params(&input);
        let step = engine(params);
        initiate_from_step(HandshakePattern::IX, step)
    }
}

impl<S> AuthPending<S> {
    /// `AuthPending` + `AuthResponseInput` => `Ready` + the peer's payload.
    /// `engine` reads `input` with the pending engine state; what it reports
    /// decides the result.
    pub fn try_next<C, F>(self, input: AuthResponseInput, engine: F) -> (r: Result<
        (Ready<C>, Vec<u8>),
        Error,
    >) where F: FnOnce(S, AuthResponseInput) -> ReadStep<S, C>
        requires
            engine.requires((self.state(), input)),
        ensures
            exists|step: ReadStep<S, C>|
                engine.ensures((self.state(), input), step) && completed(r, step),
    {
        let step = engine(self.state, input);
        complete_from_step(step)
    }
}

} // verus!
