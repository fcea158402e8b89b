//! Properties of the handshake that span several transitions.
use vstd::prelude::*;

use vstd::std_specs::convert::FromSpec;

use crate::engine::{HandshakeParams, HandshakeStatus, InitiateStep, ReadStep};
use crate::error::Error;
use crate::messages::{AuthMessage, AuthRequestOutput, AuthResponseInput};
use crate::pattern::HandshakePattern;
use crate::states::{complete_spec, initiate_spec, read_payload, written_bytes};

verus! {

/// With parameters that fit together, an engine that leaves the handshake
/// open after the first message and finishes it on reading the reply takes
/// `Start` through `AuthPending` to `Ready`: the pending state continues from
/// the engine's state, the request carries the written bytes, and the
/// session holds exactly the keys and binding the engine derived.
pub proof fn lemma_start_pending_ready<S, C>(
    params: HandshakeParams,
    first: InitiateStep<S, C>,
    second: ReadStep<S, C>,
)
    requires
        params.valid(),
        first matches InitiateStep::Written(out) && out.status is InProgress,
        second matches ReadStep::Read(out) && out.status is Complete,
    ensures
        first matches InitiateStep::Written(out) && out.status matches HandshakeStatus::InProgress(
            s,
        ) && initiate_spec(params.valid(), first) == Ok::<S, Error>(s) && written_bytes(first)
            == out.payload@,
        second matches ReadStep::Read(out) && out.status matches HandshakeStatus::Complete(res)
            && complete_spec(second) == Ok::<_, Error>(res) && read_payload(second) == out.payload@,
{
}

/// A session is only ever derived from a reply that the engine read and
/// found to finish the handshake. A reply that fails to authenticate (a
/// tampered message) ends in `HandshakeRead`, never in `Ready`.
pub proof fn lemma_ready_needs_authentic_reply<S, C>(step: ReadStep<S, C>)
    ensures
        complete_spec(step) is Ok ==> (step matches ReadStep::Read(out) && out.status is Complete),
        step is ReadFailed ==> complete_spec(step) == Err::<crate::engine::HandshakeResult<C>, _>(
            Error::HandshakeRead,
        ),
{
}

/// A reply after which the engine still expects more messages ends in
/// `HandshakeNotComplete`, never in `Ready`.
pub proof fn lemma_unfinished_reply_not_ready<S, C>(step: ReadStep<S, C>)
    requires
        step matches ReadStep::Read(out) && out.status is InProgress,
    ensures
        complete_spec(step) == Err::<crate::engine::HandshakeResult<C>, _>(
            Error::HandshakeNotComplete,
        ),
{
}

/// A first message that already finishes the handshake is refused with
/// `EarlyHandshakeComplete`.
pub proof fn lemma_early_completion_refused<S, C>(valid: bool, step: InitiateStep<S, C>)
    requires
        valid,
        step matches InitiateStep::Written(out) && out.status is Complete,
    ensures
        initiate_spec(valid, step) == Err::<S, _>(Error::EarlyHandshakeComplete),
{
}

/// An `IX` initiator without a static key of its own is refused with
/// `HandshakeInit` before the engine's report is looked at, whatever it is.
pub proof fn lemma_node_without_identity_refused<S, C>(
    params: HandshakeParams,
    step: InitiateStep<S, C>,
)
    requires
        params.pattern == HandshakePattern::IX,
        params.is_initiator,
        params.local_identity is None,
    ensures
        !params.valid(),
        initiate_spec(params.valid(), step) == Err::<S, _>(Error::HandshakeInit),
{
}

/// Framing a request into the wire envelope and reading it back gives the
/// same bytes, both as a request and as the peer's reply.
pub proof fn lemma_envelope_round_trip(req: AuthRequestOutput)
    ensures
        <AuthRequestOutput as FromSpec<AuthMessage>>::from_spec(
            <AuthMessage as FromSpec<AuthRequestOutput>>::from_spec(req),
        ).data@ == req.data@,
        <AuthResponseInput as FromSpec<AuthMessage>>::from_spec(
            <AuthMessage as FromSpec<AuthRequestOutput>>::from_spec(req),
        ).data@ == req.data@,
{
}

} // verus!
