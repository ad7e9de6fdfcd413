use libwhisper::crypto::{gen_nonce, init, KeyPair};
use libwhisper::errors::WhisperError;
use libwhisper::frame::{Frame, FrameKind};
use libwhisper::session::{
    exchange_request, run_handshake, run_handshake_with_fresh_keys, ClientSession,
    EstablishedSession, ServerSession, SessionState,
};

/// Helper to create two established sessions.
fn handshake() -> (EstablishedSession, EstablishedSession) {
    let client_identity_keypair = KeyPair::new();
    let server_identity_keypair = KeyPair::new();
    let mut client_session = ClientSession::new(
        client_identity_keypair.clone(),
        server_identity_keypair.public_key.clone(),
    );
    let mut server_session = ServerSession::new(server_identity_keypair, client_session.id());
    let hello_frame = client_session.make_hello();
    let welcome_frame = server_session
        .make_welcome(&hello_frame)
        .expect("Failed to create welcome!");
    let initiate_frame = client_session
        .make_initiate(&welcome_frame)
        .expect("Failed to create initiate!");
    let client_identity_key = server_session
        .validate_initiate(&initiate_frame)
        .expect("Failed to unpack PublicKey");
    let (server_established_session, ready_frame) = server_session
        .make_ready(&initiate_frame, &client_identity_key)
        .expect("Failed to create ready!");
    let client_established_session = client_session
        .read_ready(&ready_frame)
        .expect("Failed to read ready frame!");
    (client_established_session, server_established_session)
}

#[test]
fn test_expire_client() {
    let local = KeyPair::new();
    let remote = KeyPair::new();

    let client_session = ClientSession::new(local, remote.public_key.clone());
    assert!(!client_session.is_expired());
}

#[test]
fn test_expire_server() {
    let local = KeyPair::new();
    let remote = KeyPair::new();

    let server_session = ServerSession::new(local, remote.public_key.clone());
    assert!(!server_session.is_expired());
}

#[test]
fn test_successful_hashshake() {
    let client_identity_keypair = KeyPair::new();
    let server_identity_keypair = KeyPair::new();

    let mut client_session = ClientSession::new(
        client_identity_keypair.clone(),
        server_identity_keypair.public_key.clone(),
    );
    let mut server_session =
        ServerSession::new(server_identity_keypair.clone(), client_session.id());
    assert_eq!(client_session.session_state(), SessionState::Fresh);
    assert_eq!(server_session.session_state(), SessionState::Fresh);
    assert_eq!(client_session.id(), server_session.id());

    let hello_frame = client_session.make_hello();
    assert_eq!(hello_frame.kind, FrameKind::Hello);
    assert_eq!(client_session.session_state(), SessionState::Initiated);

    let welcome_frame = server_session
        .make_welcome(&hello_frame)
        .expect("Failed to create welcome!");
    assert_eq!(server_session.session_state(), SessionState::Initiated);

    let initiate_frame = client_session
        .make_initiate(&welcome_frame)
        .expect("Failed to create initiate!");

    let client_identity_key = server_session
        .validate_initiate(&initiate_frame)
        .expect("Failed to unpack PublicKey");
    assert_eq!(&client_identity_key, &client_identity_keypair.public_key);

    let (server_established_session, ready_frame) = server_session
        .make_ready(&initiate_frame, &client_identity_key)
        .expect("Failed to create ready!");
    assert_eq!(
        server_established_session.session_state(),
        SessionState::Ready
    );
    assert_eq!(server_session.session_state(), SessionState::Ready);

    let client_established_session = client_session
        .read_ready(&ready_frame)
        .expect("Failed to read ready frame!");
    assert_eq!(
        client_established_session.session_state(),
        SessionState::Ready
    );
    assert_eq!(client_session.session_state(), SessionState::Ready);
}

#[test]
fn test_ping_pong() {
    let (client, server) = handshake();

    let ping_bytes = b"ping";
    let ping = client.make_request(ping_bytes).unwrap();
    assert_eq!(ping.kind, FrameKind::Request);
    let ping_payload = server.read_msg(&ping).unwrap();
    assert_eq!(&ping_payload.as_slice(), &ping_bytes);

    let pong_bytes = b"pong";
    let pong = server.make_response(pong_bytes).unwrap();
    assert_eq!(pong.kind, FrameKind::Response);
    let pong_payload = client.read_msg(&pong).unwrap();
    assert_eq!(&pong_payload.as_slice(), &pong_bytes);

    let score = server.make_notification(b"Player B Scored").unwrap();

    assert_eq!(score.kind, FrameKind::Notification);
}

#[test]
fn init_succeeds() {
    assert!(init().is_ok());
}

#[test]
fn hello_payload_is_padded_and_sealed() {
    let client_identity = KeyPair::new();
    let server_identity = KeyPair::new();
    let mut client = ClientSession::new(client_identity, server_identity.public_key.clone());

    let hello = client.make_hello();
    assert_eq!(hello.kind, FrameKind::Hello);
    // 256 zero bytes plus the 16-byte authenticator tag.
    assert_eq!(hello.payload.len(), 272);
    assert_eq!(hello.id, client.id());
}

#[test]
fn tampered_welcome_fails_decryption() {
    let client_identity = KeyPair::new();
    let server_identity = KeyPair::new();
    let mut client = ClientSession::new(client_identity, server_identity.public_key.clone());
    let mut server = ServerSession::new(server_identity, client.id());

    let hello = client.make_hello();
    let mut welcome = server.make_welcome(&hello).unwrap();
    welcome.payload[0] ^= 1;

    let err = client.make_initiate(&welcome).unwrap_err();
    assert_eq!(err, WhisperError::DecryptionFailed);
    assert_eq!(client.session_state(), SessionState::Error);

    // Every further operation on the broken session is refused.
    let ready_like = Frame {
        id: client.id(),
        nonce: gen_nonce(),
        kind: FrameKind::Ready,
        payload: vec![],
    };
    let err = client.read_ready(&ready_like).unwrap_err();
    assert_eq!(err, WhisperError::InvalidSessionState);
    assert_eq!(client.session_state(), SessionState::Error);
}

#[test]
fn tampered_initiate_is_rejected() {
    let client_identity = KeyPair::new();
    let server_identity = KeyPair::new();
    let mut client = ClientSession::new(client_identity, server_identity.public_key.clone());
    let mut server = ServerSession::new(server_identity, client.id());

    let hello = client.make_hello();
    let welcome = server.make_welcome(&hello).unwrap();
    let mut initiate = client.make_initiate(&welcome).unwrap();
    initiate.payload[10] ^= 1;

    let err = server.validate_initiate(&initiate).unwrap_err();
    assert_eq!(err, WhisperError::InvalidInitiateFrame);
}

#[test]
fn out_of_order_calls_do_not_change_state() {
    let client_identity = KeyPair::new();
    let server_identity = KeyPair::new();
    let mut client = ClientSession::new(client_identity, server_identity.public_key.clone());
    let mut server = ServerSession::new(server_identity, client.id());

    // The client may not initiate before the hello round.
    let bogus = Frame {
        id: client.id(),
        nonce: gen_nonce(),
        kind: FrameKind::Welcome,
        payload: vec![],
    };
    let err = client.make_initiate(&bogus).unwrap_err();
    assert_eq!(err, WhisperError::InvalidSessionState);
    assert_eq!(client.session_state(), SessionState::Fresh);

    // The server may not answer an Initiate before the Welcome round.
    let bogus_initiate = Frame {
        id: client.id(),
        nonce: gen_nonce(),
        kind: FrameKind::Initiate,
        payload: vec![],
    };
    let pk = client.id();
    let err = server.make_ready(&bogus_initiate, &pk).unwrap_err();
    assert_eq!(err, WhisperError::InvalidSessionState);
    assert_eq!(server.session_state(), SessionState::Fresh);

    // A frame of the wrong kind is refused without touching the state.
    let hello = client.make_hello();
    assert_eq!(client.session_state(), SessionState::Initiated);
    let err = server.make_welcome(&bogus_initiate).unwrap_err();
    assert_eq!(err, WhisperError::InvalidSessionState);
    assert_eq!(server.session_state(), SessionState::Fresh);
    server.make_welcome(&hello).unwrap();
    assert_eq!(server.session_state(), SessionState::Initiated);
}

#[test]
fn expired_session_rejects_requests() {
    let (client, server) = handshake();

    let expire_at = client.expire_at();
    assert!(client.is_expired_at(expire_at));
    assert!(!client.is_expired_at(expire_at - 1));

    let err = client.make_request_at(b"late", expire_at).unwrap_err();
    assert_eq!(err, WhisperError::ExpiredSession);

    let frame = client.make_request_at(b"in time", expire_at - 1).unwrap();
    assert_eq!(frame.kind, FrameKind::Request);
    assert_eq!(server.read_msg(&frame).unwrap().as_slice(), b"in time");
}

#[test]
fn expired_handshake_rejects_ready() {
    let client_identity = KeyPair::new();
    let server_identity = KeyPair::new();
    let mut client = ClientSession::new(client_identity, server_identity.public_key.clone());
    let mut server = ServerSession::new(server_identity, client.id());

    let hello = client.make_hello();
    let welcome = server.make_welcome(&hello).unwrap();
    let initiate = client.make_initiate(&welcome).unwrap();
    let client_identity_key = server.validate_initiate(&initiate).unwrap();

    let too_late = server.expire_at().saturating_add(1);
    let err = server
        .make_ready_at(&initiate, &client_identity_key, too_late)
        .unwrap_err();
    assert_eq!(err, WhisperError::ExpiredSession);
    assert_eq!(server.session_state(), SessionState::Initiated);

    // Within the window the same call succeeds.
    let (established, ready) = server
        .make_ready_at(&initiate, &client_identity_key, server.created_at())
        .unwrap();
    assert_eq!(ready.kind, FrameKind::Ready);
    assert_eq!(established.session_state(), SessionState::Ready);
}

#[test]
fn wrong_ready_payload_is_rejected() {
    let client_identity = KeyPair::new();
    let server_identity = KeyPair::new();
    let mut client = ClientSession::new(client_identity, server_identity.public_key.clone());
    let mut server = ServerSession::new(server_identity, client.id());

    let hello = client.make_hello();
    let welcome = server.make_welcome(&hello).unwrap();
    let initiate = client.make_initiate(&welcome).unwrap();
    let client_identity_key = server.validate_initiate(&initiate).unwrap();
    let (server_established, _ready) = server
        .make_ready(&initiate, &client_identity_key)
        .unwrap();

    // A frame sealed under the right secret but with the wrong plaintext.
    let mut fake_ready = server_established.make_request(b"not ready").unwrap();
    fake_ready.kind = FrameKind::Ready;

    let err = client.read_ready(&fake_ready).unwrap_err();
    assert_eq!(err, WhisperError::InvalidReadyFrame);
    assert_eq!(client.session_state(), SessionState::Error);
}

#[test]
fn run_handshake_agrees_on_id() {
    let client_identity = KeyPair::new();
    let server_identity = KeyPair::new();
    let (client_established, server_established) =
        run_handshake(client_identity, server_identity).unwrap();
    assert_eq!(client_established.id(), server_established.id());

    let now = client_established.expire_at() - 1;
    let across = exchange_request(&client_established, &server_established, b"across", now)
        .unwrap();
    assert_eq!(across.as_slice(), b"across");

    let now = server_established.expire_at() - 1;
    let back = exchange_request(&server_established, &client_established, b"and back", now)
        .unwrap();
    assert_eq!(back.as_slice(), b"and back");
}

#[test]
fn run_handshake_with_fresh_keys_succeeds() {
    let (client_established, server_established) = run_handshake_with_fresh_keys().unwrap();
    assert_eq!(client_established.id(), server_established.id());
}

#[test]
fn garbage_message_fails_decryption() {
    let (client, _server) = handshake();
    let garbage = Frame {
        id: client.id(),
        nonce: gen_nonce(),
        kind: FrameKind::Request,
        payload: vec![1, 2, 3, 4],
    };
    let err = client.read_msg(&garbage).unwrap_err();
    assert_eq!(err, WhisperError::DecryptionFailed);
}
