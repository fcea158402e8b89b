use mc_attest_ake::engine::{
    HandshakeOutput, HandshakeParams, HandshakeResult, HandshakeStatus, InitiateStep, ReadStep,
};
use mc_attest_ake::error::Error;
use mc_attest_ake::messages::{
    AuthMessage, AuthRequestOutput, AuthResponseInput, ClientInitiate, NodeInitiate,
};
use mc_attest_ake::pattern::HandshakePattern;
use mc_attest_ake::states::{
    complete_from_step, initiate_from_step, AuthPending, Start, EVIDENCE_PLACEHOLDER_LEN,
};

type Cipher = Vec<u8>;

fn in_progress(state: u32, payload: Vec<u8>) -> HandshakeOutput<u32, Cipher> {
    HandshakeOutput {
        status: HandshakeStatus::InProgress(state),
        payload,
    }
}

fn complete(binding_len: usize, payload: Vec<u8>) -> HandshakeOutput<u32, Cipher> {
    HandshakeOutput {
        status: HandshakeStatus::Complete(HandshakeResult {
            initiator_cipher: vec![1u8; 32],
            responder_cipher: vec![2u8; 32],
            channel_binding: vec![0xabu8; binding_len],
            remote_identity: Some(vec![3u8; 32]),
        }),
        payload,
    }
}

fn pending_client() -> (AuthPending<u32>, AuthRequestOutput) {
    let start = Start::new(b"node1".to_vec());
    start
        .try_next_client(ClientInitiate, |_| InitiateStep::Written(in_progress(41, vec![5u8; 32])))
        .unwrap()
}

#[test]
fn client_scenario_node1_reaches_ready() {
    let start = Start::new(b"node1".to_vec());
    let params = start.client_params(&ClientInitiate);
    assert!(params.is_initiator);
    assert_eq!(params.pattern, HandshakePattern::NX);
    assert_eq!(params.prologue, b"node1".to_vec());
    assert!(params.local_identity.is_none());
    assert!(params.payload.is_empty());

    let ephemeral = vec![7u8; 32];
    let (pending, request) = start
        .try_next_client(ClientInitiate, |p| {
            assert_eq!(p.prologue, b"node1".to_vec());
            assert!(p.local_identity.is_none());
            InitiateStep::Written(in_progress(1, ephemeral.clone()))
        })
        .unwrap();
    assert_eq!(request.as_bytes(), &ephemeral[..]);
    assert_eq!(
        HandshakePattern::NX.request_len(32, params.payload.len()),
        Some(request.as_bytes().len())
    );
    assert_eq!(*pending.engine_state(), 1);
    assert_eq!(pending.handshake_pattern(), HandshakePattern::NX);

    let reply = AuthResponseInput::new(vec![8u8; 96]);
    let (ready, remote) = pending
        .try_next(reply, |state, input| {
            assert_eq!(state, 1);
            assert_eq!(input.as_bytes(), &[8u8; 96][..]);
            ReadStep::Read(complete(64, vec![4u8; 3]))
        })
        .unwrap();
    assert!(!ready.writer().is_empty());
    assert!(!ready.reader().is_empty());
    assert_ne!(ready.writer(), ready.reader());
    assert_eq!(ready.writer(), &vec![1u8; 32]);
    assert_eq!(ready.reader(), &vec![2u8; 32]);
    assert_eq!(ready.binding().len(), 64);
    let (writer, reader, binding) = ready.into_parts();
    assert_eq!(writer, vec![1u8; 32]);
    assert_eq!(reader, vec![2u8; 32]);
    assert_eq!(binding, vec![0xabu8; 64]);
    assert_eq!(remote, vec![4u8; 3]);
}

#[test]
fn node_handshake_sends_identity_and_placeholder() {
    let start = Start::new(b"peer".to_vec());
    let input = NodeInitiate::new(vec![9u8; 32]);
    let params = start.node_params(&input);
    assert_eq!(params.pattern, HandshakePattern::IX);
    assert_eq!(params.local_identity, Some(vec![9u8; 32]));
    assert_eq!(params.payload, vec![0u8; EVIDENCE_PLACEHOLDER_LEN]);
    assert_eq!(params.prologue, b"peer".to_vec());
    assert!(params.validate().is_ok());

    let (pending, request) = start
        .try_next_node(input, |p| {
            assert_eq!(p.pattern, HandshakePattern::IX);
            assert_eq!(p.local_identity, Some(vec![9u8; 32]));
            InitiateStep::Written(in_progress(2, vec![6u8; 96]))
        })
        .unwrap();
    assert_eq!(pending.handshake_pattern(), HandshakePattern::IX);
    assert_eq!(request.as_bytes().len(), 96);
}

#[test]
fn tampered_reply_is_a_read_error() {
    let (pending, _) = pending_client();
    let reply = AuthResponseInput::new(vec![0u8; 96]);
    let r = pending.try_next::<Cipher, _>(reply, |_, _| ReadStep::ReadFailed);
    assert!(matches!(r, Err(Error::HandshakeRead)));
}

#[test]
fn unfinished_reply_is_not_complete() {
    let (pending, _) = pending_client();
    let reply = AuthResponseInput::new(vec![0u8; 10]);
    let r = pending.try_next::<Cipher, _>(reply, |_, _| ReadStep::Read(in_progress(42, Vec::new())));
    assert!(matches!(r, Err(Error::HandshakeNotComplete)));
}

#[test]
fn early_completion_is_refused() {
    let start = Start::new(b"node1".to_vec());
    let r = start.try_next_client(ClientInitiate, |_| {
        InitiateStep::Written(complete(64, vec![1u8; 32]))
    });
    assert!(matches!(r, Err(Error::EarlyHandshakeComplete)));
}

#[test]
fn engine_failures_map_to_errors() {
    let r = Start::new(b"a".to_vec())
        .try_next_client::<u32, Cipher, _>(ClientInitiate, |_| InitiateStep::InitFailed);
    assert!(matches!(r, Err(Error::HandshakeInit)));
    let r = Start::new(b"a".to_vec())
        .try_next_node::<u32, Cipher, _>(NodeInitiate::new(vec![1u8; 32]), |_| {
            InitiateStep::WriteFailed
        });
    assert!(matches!(r, Err(Error::HandshakeWrite)));
}

#[test]
fn ix_initiator_without_identity_is_refused() {
    let params = HandshakeParams {
        is_initiator: true,
        pattern: HandshakePattern::IX,
        prologue: b"node1".to_vec(),
        local_identity: None,
        payload: Vec::new(),
    };
    assert_eq!(params.validate(), Err(Error::HandshakeInit));
    let nx = HandshakeParams {
        is_initiator: true,
        pattern: HandshakePattern::NX,
        prologue: b"node1".to_vec(),
        local_identity: None,
        payload: Vec::new(),
    };
    assert_eq!(nx.validate(), Ok(()));
    let responder = HandshakeParams {
        is_initiator: false,
        pattern: HandshakePattern::NX,
        prologue: Vec::new(),
        local_identity: None,
        payload: Vec::new(),
    };
    assert_eq!(responder.validate(), Err(Error::HandshakeInit));
}

#[test]
fn envelope_round_trip_keeps_bytes() {
    let (_, request) = pending_client();
    let bytes = request.as_bytes().to_vec();
    let msg = AuthMessage::from(request);
    assert_eq!(msg.data, bytes);
    let back = AuthRequestOutput::from(msg);
    assert_eq!(back.as_bytes(), &bytes[..]);
    let reply = AuthResponseInput::from(AuthMessage::from(back));
    assert_eq!(reply.as_bytes(), &bytes[..]);
}

#[test]
fn pattern_rules() {
    assert!(!HandshakePattern::NX.needs_local_static(true));
    assert!(HandshakePattern::IX.needs_local_static(true));
    assert!(HandshakePattern::NX.needs_local_static(false));
    assert_eq!(HandshakePattern::NX.request_len(32, 0), Some(32));
    assert_eq!(HandshakePattern::IX.request_len(32, 32), Some(96));
    assert_eq!(HandshakePattern::NX.request_len(usize::MAX, 1), None);
    assert_eq!(HandshakePattern::IX.request_len(usize::MAX / 2 + 1, 0), None);
}

#[test]
fn decisions_from_engine_reports() {
    let (pending, request) =
        initiate_from_step(HandshakePattern::IX, InitiateStep::Written(in_progress(9, vec![1u8, 2])))
            .unwrap();
    assert_eq!(*pending.engine_state(), 9);
    assert_eq!(request.as_bytes(), &[1u8, 2][..]);
    assert!(matches!(
        initiate_from_step::<u32, Cipher>(HandshakePattern::NX, InitiateStep::InitFailed),
        Err(Error::HandshakeInit)
    ));

    let (ready, payload) = complete_from_step(ReadStep::Read(complete(32, Vec::new()))).unwrap();
    assert_eq!(ready.binding(), &[0xabu8; 32][..]);
    assert!(payload.is_empty());
    assert!(matches!(
        complete_from_step::<u32, Cipher>(ReadStep::ReadFailed),
        Err(Error::HandshakeRead)
    ));
    assert!(matches!(
        complete_from_step::<u32, Cipher>(ReadStep::Read(in_progress(1, Vec::new()))),
        Err(Error::HandshakeNotComplete)
    ));
}
