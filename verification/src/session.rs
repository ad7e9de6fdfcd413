//! Session (singular) management. A session is responsible for frame
//! generation and encryption.
//!
//! ### Client session vs server session
//! The only difference between `ClientSession` and `ServerSession` is that
//! the client doesn't know the server's session key at the beginning, while
//! the server doesn't know the client's identity key.
//!
//! The handshake is heavily based on CurveCP and CurveZMQ:
//!
//! 1. Client sends a Hello frame to the server.
//! 2. Server replies with a Welcome frame.
//! 3. Client replies with an Initiate frame.
//! 4. Server verifies that the client is allowed to talk to it and replies
//!    with a Ready frame.
//!
//! After that both sides hold an `EstablishedSession` and can exchange
//! Request, Response and Notification frames both ways.

use vstd::prelude::*;

use crate::crypto;
use crate::crypto::{key_of, precomp_of, seal_of, sealp_of};
use crate::crypto::{Nonce, PrecomputedKey, PublicKey, KEY_SIZE, NONCE_SIZE, TAG_SIZE};
use crate::errors::{WhisperError, WhisperResult};
use crate::frame::{Frame, FrameKind};

pub use crate::crypto::KeyPair;

verus! {

/// How many minutes client and server have to agree on a shared secret.
pub const HANDSHAKE_DURATION: i64 = 3;

/// How many minutes one shared secret can last.
pub const SESSION_DURATION: i64 = 55;

/// The handshake window in milliseconds.
pub const HANDSHAKE_DURATION_MS: i64 = HANDSHAKE_DURATION * 60 * 1000;

/// The session lifetime in milliseconds.
pub const SESSION_DURATION_MS: i64 = SESSION_DURATION * 60 * 1000;

/// How many zero bytes pad the Hello payload. The padding keeps the Hello
/// frame bigger than the Welcome reply to prevent amplification attacks.
pub const HELLO_PADDING: usize = 256;

/// A run of `n` zero bytes.
pub open spec fn zero_bytes(n: nat) -> Seq<u8> {
    Seq::new(n, |i: int| 0u8)
}

/// The fixed 16-byte payload the server seals into the Ready frame.
pub open spec fn ready_plaintext() -> Seq<u8> {
    seq![77u8, 121u8, 32u8, 98u8, 111u8, 100u8, 121u8, 32u8, 105u8, 115u8, 32u8, 114u8, 101u8, 97u8, 100u8, 121u8]
}

/// The zero padding inside a Hello payload.
pub fn null_bytes() -> (r: Vec<u8>)
    ensures
        r@ == zero_bytes(HELLO_PADDING as nat),
{
    let mut v: Vec<u8> = Vec::new();
    let mut i: usize = 0;
    while i < HELLO_PADDING
        invariant
            i <= HELLO_PADDING,
            v@ == zero_bytes(i as nat),
        decreases HELLO_PADDING - i,
    {
        v.push(0u8);
        i = i + 1;
        proof {
            assert(v@ =~= zero_bytes(i as nat));
        }
    }
    v
}

/// The payload the server side is supposed to send to the client in the
/// Ready frame.
pub fn ready_payload() -> (r: Vec<u8>)
    ensures
        r@ == ready_plaintext(),
        r@.len() == 16,
{
    let v: Vec<u8> = vec![77u8, 121u8, 32u8, 98u8, 111u8, 100u8, 121u8, 32u8, 105u8, 115u8, 32u8, 114u8, 101u8, 97u8, 100u8, 121u8];
    proof {
        assert(v@ =~= ready_plaintext());
    }
    v
}

/// Milliseconds of wall-clock time.
///
/// Relies on chrono's `Utc::now`: nothing is promised of the clock's value.
#[verifier::external_body]
fn now_ms() -> i64 {
    chrono::Utc::now().timestamp_millis()
}

/// An instant a duration after a creation instant, clamped to the largest
/// representable instant.
pub open spec fn expiry_of(created: int, duration: int) -> int {
    if created + duration <= i64::MAX {
        created + duration
    } else {
        i64::MAX as int
    }
}

/// Expiry law: at its creation instant a session is not yet expired, for
/// any positive lifetime and any creation instant short of the very last
/// one the clock can represent.
pub proof fn lemma_not_expired_at_creation(created: int, duration: int)
    requires
        0 < duration,
        created < i64::MAX,
    ensures
        created < expiry_of(created, duration),
{
}

/// Adds a duration to an instant, clamping at the largest representable
/// instant.
fn add_duration(now: i64, duration: i64) -> (r: i64)
    requires
        duration >= 0,
    ensures
        r == expiry_of(now as int, duration as int),
{
    if now <= i64::MAX - duration {
        now + duration
    } else {
        i64::MAX
    }
}

/// Whether two byte strings hold the same bytes.
fn bytes_eq(a: &[u8], b: &[u8]) -> (r: bool)
    ensures
        r == (a@ == b@),
{
    if a.len() != b.len() {
        return false;
    }
    let mut i: usize = 0;
    while i < a.len()
        invariant
            i <= a@.len(),
            a@.len() == b@.len(),
            forall|j: int| 0 <= j < i ==> a@[j] == b@[j],
        decreases a@.len() - i,
    {
        if a[i] != b[i] {
            return false;
        }
        i = i + 1;
    }
    proof {
        assert(a@ =~= b@);
    }
    true
}

/// Enum representing session state.
#[derive(Debug, Clone, PartialEq, Copy, Eq, Structural)]
pub enum SessionState {
    /// Session has been created, but handshake isn't initiated yet.
    Fresh,
    /// This state means that handshake has started.
    Initiated,
    /// This state means that session is established and messages can be
    /// sent both ways.
    Ready,
    /// This state means that the session cannot be used any more.
    Error,
}

/// Everything a server-side session holds, as plain values.
pub ghost struct ServerSessionView {
    /// Instant the session was created, in milliseconds.
    pub created_at: int,
    /// Instant the handshake window closes, in milliseconds.
    pub expire_at: int,
    /// The server's ephemeral session public key.
    pub session_pk: Seq<u8>,
    /// The server's ephemeral session secret key.
    pub session_sk: Seq<u8>,
    /// The server's long-term identity public key.
    pub identity_pk: Seq<u8>,
    /// The server's long-term identity secret key.
    pub identity_sk: Seq<u8>,
    /// The client's ephemeral session public key, from the Hello frame.
    pub remote_session_key: Seq<u8>,
    /// The client's long-term identity key, once Initiate is validated.
    pub remote_identity_key: Option<Seq<u8>>,
    /// Where in the handshake this session stands.
    pub state: SessionState,
}

/// Server-side session.
#[derive(Debug, Clone)]
pub struct ServerSession {
    expire_at: i64,
    created_at: i64,
    local_session_keypair: KeyPair,
    local_identity_keypair: KeyPair,
    remote_session_key: PublicKey,
    remote_identity_key: Option<PublicKey>,
    state: SessionState,
}

impl View for ServerSession {
    type V = ServerSessionView;

    closed spec fn view(&self) -> ServerSessionView {
        ServerSessionView {
            created_at: self.created_at as int,
            expire_at: self.expire_at as int,
            session_pk: self.local_session_keypair.public_key@,
            session_sk: self.local_session_keypair.secret_key@,
            identity_pk: self.local_identity_keypair.public_key@,
            identity_sk: self.local_identity_keypair.secret_key@,
            remote_session_key: self.remote_session_key@,
            remote_identity_key: match self.remote_identity_key {
                Some(k) => Some(k@),
                None => None,
            },
            state: self.state,
        }
    }
}

impl ServerSession {
    /// The keys inside have their full lengths and each public key is the
    /// one derived from its secret key.
    pub open spec fn wf(&self) -> bool {
        &&& self@.session_sk.len() == KEY_SIZE
        &&& self@.session_pk == key_of(self@.session_sk)
        &&& self@.session_pk.len() == KEY_SIZE
        &&& self@.identity_sk.len() == KEY_SIZE
        &&& self@.identity_pk == key_of(self@.identity_sk)
        &&& self@.identity_pk.len() == KEY_SIZE
        &&& self@.remote_session_key.len() == KEY_SIZE
    }

    /// Server side session. `remote_session_key` comes from the Hello
    /// frame's id.
    pub fn new(local_identity_keypair: KeyPair, remote_session_key: PublicKey) -> (r: ServerSession)
        requires
            local_identity_keypair.wf(),
            remote_session_key.wf(),
        ensures
            r.wf(),
            r@.state == SessionState::Fresh,
            r@.identity_pk == local_identity_keypair.public_key@,
            r@.identity_sk == local_identity_keypair.secret_key@,
            r@.remote_session_key == remote_session_key@,
            r@.remote_identity_key is None,
            r@.expire_at == expiry_of(r@.created_at, HANDSHAKE_DURATION_MS as int),
    {
        let now = now_ms();
        let expire_at = add_duration(now, HANDSHAKE_DURATION_MS);
        ServerSession {
            expire_at,
            created_at: now,
            local_session_keypair: KeyPair::new(),
            local_identity_keypair,
            remote_session_key,
            remote_identity_key: None,
            state: SessionState::Fresh,
        }
    }

    /// Whether the handshake window is closed at the instant `now`.
    pub fn is_expired_at(&self, now: i64) -> (r: bool)
        ensures
            r == (now >= self@.expire_at),
    {
        now >= self.expire_at
    }

    /// Whether the handshake window is closed now.
    pub fn is_expired(&self) -> bool {
        self.is_expired_at(now_ms())
    }

    /// Returns session state.
    pub fn session_state(&self) -> (r: SessionState)
        ensures
            r == self@.state,
    {
        self.state
    }

    /// Returns the session id: the client's ephemeral public key.
    pub fn id(&self) -> (r: PublicKey)
        ensures
            r@ == self@.remote_session_key,
    {
        self.remote_session_key.clone()
    }

    /// Instant this session was created, in milliseconds.
    pub fn created_at(&self) -> (r: i64)
        ensures
            r == self@.created_at,
    {
        self.created_at
    }

    /// Instant the handshake window closes, in milliseconds.
    pub fn expire_at(&self) -> (r: i64)
        ensures
            r == self@.expire_at,
    {
        self.expire_at
    }
}

/// Everything a client-side session holds, as plain values.
pub ghost struct ClientSessionView {
    /// Instant the session was created, in milliseconds.
    pub created_at: int,
    /// Instant the handshake window closes, in milliseconds.
    pub expire_at: int,
    /// The client's ephemeral session public key.
    pub session_pk: Seq<u8>,
    /// The client's ephemeral session secret key.
    pub session_sk: Seq<u8>,
    /// The client's long-term identity public key.
    pub identity_pk: Seq<u8>,
    /// The client's long-term identity secret key.
    pub identity_sk: Seq<u8>,
    /// The server's ephemeral session key, once Welcome is processed.
    pub remote_session_key: Option<Seq<u8>>,
    /// The server's long-term identity key, known out-of-band.
    pub remote_identity_key: Seq<u8>,
    /// Where in the handshake this session stands.
    pub state: SessionState,
}

/// Client-side session.
#[derive(Debug, Clone)]
pub struct ClientSession {
    expire_at: i64,
    created_at: i64,
    local_session_keypair: KeyPair,
    local_identity_keypair: KeyPair,
    remote_session_key: Option<PublicKey>,
    remote_identity_key: PublicKey,
    state: SessionState,
}

impl View for ClientSession {
    type V = ClientSessionView;

    closed spec fn view(&self) -> ClientSessionView {
        ClientSessionView {
            created_at: self.created_at as int,
            expire_at: self.expire_at as int,
            session_pk: self.local_session_keypair.public_key@,
            session_sk: self.local_session_keypair.secret_key@,
            identity_pk: self.local_identity_keypair.public_key@,
            identity_sk: self.local_identity_keypair.secret_key@,
            remote_session_key: match self.remote_session_key {
                Some(k) => Some(k@),
                None => None,
            },
            remote_identity_key: self.remote_identity_key@,
            state: self.state,
        }
    }
}

impl ClientSession {
    /// The keys inside have their full lengths and each public key is the
    /// one derived from its secret key.
    pub open spec fn wf(&self) -> bool {
        &&& self@.session_sk.len() == KEY_SIZE
        &&& self@.session_pk == key_of(self@.session_sk)
        &&& self@.session_pk.len() == KEY_SIZE
        &&& self@.identity_sk.len() == KEY_SIZE
        &&& self@.identity_pk == key_of(self@.identity_sk)
        &&& self@.identity_pk.len() == KEY_SIZE
        &&& self@.remote_identity_key.len() == KEY_SIZE
        &&& (self@.remote_session_key matches Some(k) ==> k.len() == KEY_SIZE)
    }

    /// Create a new client session that will talk to the server whose
    /// long-term identity key is `remote_identity_key`.
    pub fn new(local_identity_keypair: KeyPair, remote_identity_key: PublicKey) -> (r: ClientSession)
        requires
            local_identity_keypair.wf(),
            remote_identity_key.wf(),
        ensures
            r.wf(),
            r@.state == SessionState::Fresh,
            r@.identity_pk == local_identity_keypair.public_key@,
            r@.identity_sk == local_identity_keypair.secret_key@,
            r@.remote_identity_key == remote_identity_key@,
            r@.remote_session_key is None,
            r@.expire_at == expiry_of(r@.created_at, HANDSHAKE_DURATION_MS as int),
    {
        let now = now_ms();
        let expire_at = add_duration(now, HANDSHAKE_DURATION_MS);
        ClientSession {
            expire_at,
            created_at: now,
            local_session_keypair: KeyPair::new(),
            local_identity_keypair,
            remote_session_key: None,
            remote_identity_key,
            state: SessionState::Fresh,
        }
    }

    /// Whether the handshake window is closed at the instant `now`.
    pub fn is_expired_at(&self, now: i64) -> (r: bool)
        ensures
            r == (now >= self@.expire_at),
    {
        now >= self.expire_at
    }

    /// Whether the handshake window is closed now.
    pub fn is_expired(&self) -> bool {
        self.is_expired_at(now_ms())
    }

    /// Returns session state.
    pub fn session_state(&self) -> (r: SessionState)
        ensures
            r == self@.state,
    {
        self.state
    }

    /// Returns the session id: the client's own ephemeral public key.
    pub fn id(&self) -> (r: PublicKey)
        ensures
            r@ == self@.session_pk,
    {
        self.local_session_keypair.public_key.clone()
    }

    /// Instant this session was created, in milliseconds.
    pub fn created_at(&self) -> (r: i64)
        ensures
            r == self@.created_at,
    {
        self.created_at
    }

    /// Instant the handshake window closes, in milliseconds.
    pub fn expire_at(&self) -> (r: i64)
        ensures
            r == self@.expire_at,
    {
        self.expire_at
    }
}

/// Everything an established session holds, as plain values.
pub ghost struct EstablishedSessionView {
    /// The session id: the client's ephemeral public key.
    pub id: Seq<u8>,
    /// The precomputed shared secret both sides agreed on.
    pub secret: Seq<u8>,
    /// Instant the session stops accepting new messages, in milliseconds.
    pub expire_at: int,
}

/// A session that completed the handshake.
///
/// The only way to create one is to have a `ClientSession` and a
/// `ServerSession` agree on a shared secret: the server side turns into an
/// `EstablishedSession` by validating the Initiate frame, the client side by
/// verifying the Ready frame.
#[derive(Debug)]
pub struct EstablishedSession {
    id: PublicKey,
    expire_at: i64,
    session_secret: PrecomputedKey,
}

impl View for EstablishedSession {
    type V = EstablishedSessionView;

    closed spec fn view(&self) -> EstablishedSessionView {
        EstablishedSessionView {
            id: self.id@,
            secret: self.session_secret@,
            expire_at: self.expire_at as int,
        }
    }
}

impl EstablishedSession {
    /// The id and the shared secret have their full lengths.
    pub open spec fn wf(&self) -> bool {
        self@.id.len() == KEY_SIZE && self@.secret.len() == KEY_SIZE
    }

    /// Create an `EstablishedSession` by precomputing the shared secret.
    /// Don't use this directly: the handshake sessions call it.
    pub fn new(remote_session_key: PublicKey, local_session_keypair: KeyPair) -> (r:
        EstablishedSession)
        requires
            remote_session_key.wf(),
            local_session_keypair.public_key.wf(),
            local_session_keypair.secret_key.wf(),
        ensures
            r.wf(),
            r@.id == local_session_keypair.public_key@,
            r@.secret == precomp_of(remote_session_key@, local_session_keypair.secret_key@),
            forall|peer_sk: Seq<u8>|
                remote_session_key@ == #[trigger] key_of(peer_sk) ==> r@.secret == precomp_of(
                    key_of(local_session_keypair.secret_key@),
                    peer_sk,
                ),
    {
        let now = now_ms();
        let session_secret = crypto::precompute(
            &remote_session_key,
            &local_session_keypair.secret_key,
        );
        EstablishedSession {
            id: local_session_keypair.public_key,
            expire_at: add_duration(now, SESSION_DURATION_MS),
            session_secret,
        }
    }

    /// The server-side constructor: the session id is the client's
    /// ephemeral public key, which the server knows as the remote session
    /// key.
    fn new_for_server(remote_session_key: PublicKey, local_session_keypair: KeyPair) -> (r:
        EstablishedSession)
        requires
            remote_session_key.wf(),
            local_session_keypair.secret_key.wf(),
        ensures
            r.wf(),
            r@.id == remote_session_key@,
            r@.secret == precomp_of(remote_session_key@, local_session_keypair.secret_key@),
            forall|peer_sk: Seq<u8>|
                remote_session_key@ == #[trigger] key_of(peer_sk) ==> r@.secret == precomp_of(
                    key_of(local_session_keypair.secret_key@),
                    peer_sk,
                ),
    {
        let now = now_ms();
        let session_secret = crypto::precompute(
            &remote_session_key,
            &local_session_keypair.secret_key,
        );
        EstablishedSession {
            id: remote_session_key,
            expire_at: add_duration(now, SESSION_DURATION_MS),
            session_secret,
        }
    }

    /// Seals a payload under the shared secret with a fresh nonce.
    fn seal_msg(&self, data: &[u8]) -> (r: (Nonce, Vec<u8>))
        requires
            self.wf(),
        ensures
            r.0.wf(),
            r.1@ == sealp_of(data@, r.0@, self@.secret),
            r.1@.len() == data@.len() + TAG_SIZE,
    {
        let nonce = crypto::gen_nonce();
        let payload = crypto::seal_precomputed(data, &nonce, &self.session_secret);
        (nonce, payload)
    }

    /// Opens the payload of a frame under the shared secret, using the
    /// frame's nonce. Succeeds exactly when the payload is a box sealed
    /// under this session's secret and that nonce, and then returns the
    /// bytes it was sealed from; fails with `DecryptionFailed` otherwise.
    pub fn read_msg(&self, frame: &Frame) -> (r: WhisperResult<Vec<u8>>)
        requires
            self.wf(),
            frame.wf(),
        ensures
            r matches Err(e) ==> e == WhisperError::DecryptionFailed,
            r matches Ok(m) ==> m@.len() + TAG_SIZE == frame.payload@.len(),
            r matches Ok(m) ==> frame.payload@ == sealp_of(m@, frame.nonce@, self@.secret),
            r is Err ==> forall|m: Seq<u8>|
                frame.payload@ != #[trigger] sealp_of(m, frame.nonce@, self@.secret),
            r matches Ok(p) ==> forall|m: Seq<u8>|
                frame.payload@ == #[trigger] sealp_of(m, frame.nonce@, self@.secret) ==> p@ == m,
    {
        match crypto::open_precomputed(&frame.payload, &frame.nonce, &self.session_secret) {
            Some(msg) => Ok(msg),
            None => Err(WhisperError::DecryptionFailed),
        }
    }

    /// Builds an application frame of the given kind at the instant `now`.
    fn make_message_at(&self, data: &[u8], kind: FrameKind, now: i64) -> (r: WhisperResult<Frame>)
        requires
            self.wf(),
        ensures
            now >= self@.expire_at ==> r == Err::<Frame, WhisperError>(WhisperError::ExpiredSession),
            now < self@.expire_at ==> (r matches Ok(f) && f.wf() && f.kind == kind && f.id@
                == self@.id && f.payload@ == sealp_of(data@, f.nonce@, self@.secret)
                && f.payload@.len() == data@.len() + TAG_SIZE),
    {
        if self.is_expired_at(now) {
            return Err(WhisperError::ExpiredSession);
        }
        let (nonce, payload) = self.seal_msg(data);
        Ok(Frame { id: self.id.clone(), nonce, kind, payload })
    }

    /// Builds a Request frame, taking `now` as the current instant. Fails
    /// with `ExpiredSession` exactly when the session has expired at `now`.
    pub fn make_request_at(&self, data: &[u8], now: i64) -> (r: WhisperResult<Frame>)
        requires
            self.wf(),
        ensures
            now >= self@.expire_at ==> r == Err::<Frame, WhisperError>(WhisperError::ExpiredSession),
            now < self@.expire_at ==> (r matches Ok(f) && f.wf() && f.kind == FrameKind::Request
                && f.id@ == self@.id && f.payload@ == sealp_of(data@, f.nonce@, self@.secret)
                && f.payload@.len() == data@.len() + TAG_SIZE),
    {
        self.make_message_at(data, FrameKind::Request, now)
    }

    /// Builds a Response frame, taking `now` as the current instant. Fails
    /// with `ExpiredSession` exactly when the session has expired at `now`.
    pub fn make_response_at(&self, data: &[u8], now: i64) -> (r: WhisperResult<Frame>)
        requires
            self.wf(),
        ensures
            now >= self@.expire_at ==> r == Err::<Frame, WhisperError>(WhisperError::ExpiredSession),
            now < self@.expire_at ==> (r matches Ok(f) && f.wf() && f.kind == FrameKind::Response
                && f.id@ == self@.id && f.payload@ == sealp_of(data@, f.nonce@, self@.secret)
                && f.payload@.len() == data@.len() + TAG_SIZE),
    {
        self.make_message_at(data, FrameKind::Response, now)
    }

    /// Builds a Notification frame, taking `now` as the current instant.
    /// Fails with `ExpiredSession` exactly when the session has expired at
    /// `now`.
    pub fn make_notification_at(&self, data: &[u8], now: i64) -> (r: WhisperResult<Frame>)
        requires
            self.wf(),
        ensures
            now >= self@.expire_at ==> r == Err::<Frame, WhisperError>(WhisperError::ExpiredSession),
            now < self@.expire_at ==> (r matches Ok(f) && f.wf() && f.kind
                == FrameKind::Notification && f.id@ == self@.id && f.payload@ == sealp_of(
                data@,
                f.nonce@,
                self@.secret,
            ) && f.payload@.len() == data@.len() + TAG_SIZE),
    {
        self.make_message_at(data, FrameKind::Notification, now)
    }

    /// Method used to create new requests at the current instant.
    pub fn make_request(&self, data: &[u8]) -> (r: WhisperResult<Frame>)
        requires
            self.wf(),
        ensures
            r matches Err(e) ==> e == WhisperError::ExpiredSession,
            r matches Ok(f) ==> (f.wf() && f.kind == FrameKind::Request && f.id@ == self@.id
                && f.payload@ == sealp_of(data@, f.nonce@, self@.secret) && f.payload@.len()
                == data@.len() + TAG_SIZE),
    {
        self.make_request_at(data, now_ms())
    }

    /// Method used to create new responses at the current instant.
    pub fn make_response(&self, data: &[u8]) -> (r: WhisperResult<Frame>)
        requires
            self.wf(),
        ensures
            r matches Err(e) ==> e == WhisperError::ExpiredSession,
            r matches Ok(f) ==> (f.wf() && f.kind == FrameKind::Response && f.id@ == self@.id
                && f.payload@ == sealp_of(data@, f.nonce@, self@.secret) && f.payload@.len()
                == data@.len() + TAG_SIZE),
    {
        self.make_response_at(data, now_ms())
    }

    /// Method used to create new notifications at the current instant.
    pub fn make_notification(&self, data: &[u8]) -> (r: WhisperResult<Frame>)
        requires
            self.wf(),
        ensures
            r matches Err(e) ==> e == WhisperError::ExpiredSession,
            r matches Ok(f) ==> (f.wf() && f.kind == FrameKind::Notification && f.id@ == self@.id
                && f.payload@ == sealp_of(data@, f.nonce@, self@.secret) && f.payload@.len()
                == data@.len() + TAG_SIZE),
    {
        self.make_notification_at(data, now_ms())
    }

    /// Whether the session is expired at the instant `now`.
    pub fn is_expired_at(&self, now: i64) -> (r: bool)
        ensures
            r == (now >= self@.expire_at),
    {
        now >= self.expire_at
    }

    /// Whether the session is expired now.
    pub fn is_expired(&self) -> bool {
        self.is_expired_at(now_ms())
    }

    /// Returns session state: an established session is always Ready.
    pub fn session_state(&self) -> (r: SessionState)
        ensures
            r == SessionState::Ready,
    {
        SessionState::Ready
    }

    /// Returns the session id: the client's ephemeral public key.
    pub fn id(&self) -> (r: PublicKey)
        ensures
            r@ == self@.id,
    {
        self.id.clone()
    }

    /// Instant the session stops accepting new messages, in milliseconds.
    pub fn expire_at(&self) -> (r: i64)
        ensures
            r == self@.expire_at,
    {
        self.expire_at
    }
}


/// The 104-byte plaintext inside an Initiate box: the client's long-term
/// public key, then the vouch nonce, then the vouch box.
pub open spec fn initiate_plaintext(
    client_identity_pk: Seq<u8>,
    vouch_nonce: Seq<u8>,
    vouch_box: Seq<u8>,
) -> Seq<u8> {
    client_identity_pk + vouch_nonce + vouch_box
}

/// The vouch box: the client's session key sealed to the server's session
/// key under the client's long-term secret.
pub open spec fn vouch_box_of(
    c: ClientSessionView,
    vouch_nonce: Seq<u8>,
    server_session_pk: Seq<u8>,
) -> Seq<u8> {
    seal_of(c.session_pk, vouch_nonce, server_session_pk, c.identity_sk)
}

/// The payload an honest client whose view is `c` puts in an Initiate frame
/// for the server session key `server_session_pk`, using the vouch nonce
/// `vouch_nonce`.
pub open spec fn initiate_for(
    f: Frame,
    server_session_pk: Seq<u8>,
    c: ClientSessionView,
    vouch_nonce: Seq<u8>,
) -> bool {
    &&& vouch_nonce.len() == NONCE_SIZE
    &&& vouch_box_of(c, vouch_nonce, server_session_pk).len() == KEY_SIZE + TAG_SIZE
    &&& f.payload@ == seal_of(
        initiate_plaintext(
            c.identity_pk,
            vouch_nonce,
            vouch_box_of(c, vouch_nonce, server_session_pk),
        ),
        f.nonce@,
        server_session_pk,
        c.session_sk,
    )
}

impl ClientSession {
    /// Helper to make a Hello frame: 256 sealed zero bytes addressed to the
    /// server's long-term identity. Client workflow.
    pub fn make_hello(&mut self) -> (r: Frame)
        requires
            old(self).wf(),
            old(self)@.state == SessionState::Fresh,
        ensures
            final(self).wf(),
            final(self)@ == (ClientSessionView { state: SessionState::Initiated, ..old(self)@ }),
            r.wf(),
            r.kind == FrameKind::Hello,
            r.id@ == old(self)@.session_pk,
            r.payload@ == seal_of(
                zero_bytes(HELLO_PADDING as nat),
                r.nonce@,
                old(self)@.remote_identity_key,
                old(self)@.session_sk,
            ),
            r.payload@.len() == HELLO_PADDING + TAG_SIZE,
    {
        self.state = SessionState::Initiated;
        let nonce = crypto::gen_nonce();
        let zeros = null_bytes();
        let payload = crypto::seal(
            zeros.as_slice(),
            &nonce,
            &self.remote_identity_key,
            &self.local_session_keypair.secret_key,
        );
        Frame {
            id: self.local_session_keypair.public_key.clone(),
            nonce,
            kind: FrameKind::Hello,
            payload,
        }
    }

    /// Helper to make a vouch: the client's session key sealed to the
    /// server's session key under the client's long-term secret, preceded
    /// by the vouch nonce.
    fn make_vouch(&self, remote_session_key: &PublicKey) -> (r: Vec<u8>)
        requires
            self.wf(),
            remote_session_key.wf(),
        ensures
            r@.len() == NONCE_SIZE + KEY_SIZE + TAG_SIZE,
            exists|vn: Seq<u8>|
                vn.len() == NONCE_SIZE && r@ == vn + #[trigger] seal_of(
                    self@.session_pk,
                    vn,
                    remote_session_key@,
                    self@.identity_sk,
                ),
    {
        let nonce = crypto::gen_nonce();
        let vouch_box = crypto::seal(
            self.local_session_keypair.public_key.as_slice(),
            &nonce,
            remote_session_key,
            &self.local_identity_keypair.secret_key,
        );
        let mut vouch: Vec<u8> = Vec::new();
        vouch.extend_from_slice(nonce.as_slice());
        vouch.extend_from_slice(vouch_box.as_slice());
        proof {
            assert(vouch@ =~= nonce@ + vouch_box@);
        }
        vouch
    }

    /// Helper to make an Initiate frame, a reply to a Welcome frame. Client
    /// workflow. Opens the Welcome box to learn the server's session key,
    /// stores it, and answers with the identity bundle and the vouch sealed
    /// to that session key.
    pub fn make_initiate(&mut self, welcome: &Frame) -> (r: WhisperResult<Frame>)
        requires
            old(self).wf(),
            welcome.wf(),
        ensures
            final(self).wf(),
            !(old(self)@.state == SessionState::Initiated && welcome.kind == FrameKind::Welcome)
                ==> (r == Err::<Frame, WhisperError>(WhisperError::InvalidSessionState)
                    && *final(self) == *old(self)),
            (old(self)@.state == SessionState::Initiated && welcome.kind == FrameKind::Welcome)
                ==> (r matches Err(e) ==> ((e == WhisperError::DecryptionFailed || e
                == WhisperError::InvalidWelcomeFrame) && final(self)@ == (ClientSessionView {
                state: SessionState::Error,
                ..old(self)@
            }))),
            (old(self)@.state == SessionState::Initiated && welcome.kind == FrameKind::Welcome)
                ==> (r matches Ok(f) ==> (f.wf() && f.kind == FrameKind::Initiate && f.id@
                == welcome.id@ && (final(self)@.remote_session_key matches Some(spk) && spk.len()
                == KEY_SIZE && final(self)@ == (ClientSessionView {
                remote_session_key: Some(spk),
                ..old(self)@
            }) && (exists|vn: Seq<u8>| #[trigger] initiate_for(f, spk, old(self)@, vn))))),
            forall|server_identity_sk: Seq<u8>, spk: Seq<u8>|
                (old(self)@.state == SessionState::Initiated && welcome.kind == FrameKind::Welcome
                    && old(self)@.remote_identity_key == key_of(server_identity_sk) && spk.len()
                    == KEY_SIZE && welcome.payload@ == #[trigger] seal_of(
                    spk,
                    welcome.nonce@,
                    key_of(old(self)@.session_sk),
                    server_identity_sk,
                )) ==> (r is Ok && final(self)@.remote_session_key == Some(spk)),
            forall|server_identity_sk: Seq<u8>, m: Seq<u8>|
                (old(self)@.state == SessionState::Initiated && welcome.kind == FrameKind::Welcome
                    && old(self)@.remote_identity_key == key_of(server_identity_sk) && m.len()
                    != KEY_SIZE && welcome.payload@ == #[trigger] seal_of(
                    m,
                    welcome.nonce@,
                    key_of(old(self)@.session_sk),
                    server_identity_sk,
                )) ==> (r == Err::<Frame, WhisperError>(WhisperError::InvalidWelcomeFrame) && final(self)@
                    == (ClientSessionView { state: SessionState::Error, ..old(self)@ })),
            (old(self)@.state == SessionState::Initiated && welcome.kind == FrameKind::Welcome && !(
            exists|m: Seq<u8>|
                welcome.payload@ == #[trigger] seal_of(
                    m,
                    welcome.nonce@,
                    old(self)@.remote_identity_key,
                    old(self)@.session_sk,
                ))) ==> (r == Err::<Frame, WhisperError>(WhisperError::DecryptionFailed) && final(self)@
                    == (ClientSessionView { state: SessionState::Error, ..old(self)@ })),
    {
        if self.state != SessionState::Initiated || welcome.kind != FrameKind::Welcome {
            return Err(WhisperError::InvalidSessionState);
        }
        match crypto::open(
            &welcome.payload,
            &welcome.nonce,
            &self.remote_identity_key,
            &self.local_session_keypair.secret_key,
        ) {
            Some(server_pk) => {
                match PublicKey::from_slice(server_pk.as_slice()) {
                    Some(key) => {
                        let vouch = self.make_vouch(&key);
                        let mut initiate_box: Vec<u8> = Vec::new();
                        initiate_box.extend_from_slice(
                            self.local_identity_keypair.public_key.as_slice(),
                        );
                        initiate_box.extend_from_slice(vouch.as_slice());
                        let nonce = crypto::gen_nonce();
                        let payload = crypto::seal(
                            initiate_box.as_slice(),
                            &nonce,
                            &key,
                            &self.local_session_keypair.secret_key,
                        );
                        let frame = Frame {
                            id: welcome.id.clone(),
                            nonce,
                            kind: FrameKind::Initiate,
                            payload,
                        };
                        proof {
                            let vn = choose|vn: Seq<u8>|
                                vn.len() == NONCE_SIZE && vouch@ == vn + #[trigger] seal_of(
                                    self@.session_pk,
                                    vn,
                                    key@,
                                    self@.identity_sk,
                                );
                            assert(initiate_box@ =~= initiate_plaintext(
                                self@.identity_pk,
                                vn,
                                vouch_box_of(self@, vn, key@),
                            ));
                            assert(initiate_for(frame, key@, self@, vn));
                        }
                        self.remote_session_key = Some(key);
                        Ok(frame)
                    },
                    None => {
                        self.state = SessionState::Error;
                        Err(WhisperError::InvalidWelcomeFrame)
                    },
                }
            },
            None => {
                self.state = SessionState::Error;
                Err(WhisperError::DecryptionFailed)
            },
        }
    }
}

impl ServerSession {
    /// Helper to make a Welcome frame, a reply to a Hello frame. Server
    /// workflow. Opens the Hello box with the identity key, checks the
    /// padding length, and answers with the server's session key sealed to
    /// the client's session key.
    pub fn make_welcome(&mut self, hello: &Frame) -> (r: WhisperResult<Frame>)
        requires
            old(self).wf(),
            hello.wf(),
        ensures
            final(self).wf(),
            !(old(self)@.state == SessionState::Fresh && hello.kind == FrameKind::Hello) ==> (r
                == Err::<Frame, WhisperError>(WhisperError::InvalidSessionState) && *final(self)
                == *old(self)),
            (old(self)@.state == SessionState::Fresh && hello.kind == FrameKind::Hello) ==> (
            r matches Ok(w) ==> (final(self)@ == (ServerSessionView {
                state: SessionState::Initiated,
                ..old(self)@
            }) && w.wf() && w.kind == FrameKind::Welcome && w.id@ == hello.id@ && w.payload@
                == seal_of(old(self)@.session_pk, w.nonce@, hello.id@, old(self)@.identity_sk)
                && w.payload@.len() == KEY_SIZE + TAG_SIZE)),
            (old(self)@.state == SessionState::Fresh && hello.kind == FrameKind::Hello) ==> (
            r matches Err(e) ==> ((e == WhisperError::DecryptionFailed || e
                == WhisperError::InvalidHelloFrame) && final(self)@ == (ServerSessionView {
                state: SessionState::Error,
                ..old(self)@
            }))),
            forall|client_session_sk: Seq<u8>, m: Seq<u8>|
                (old(self)@.state == SessionState::Fresh && hello.kind == FrameKind::Hello
                    && hello.id@ == key_of(client_session_sk) && m.len() == HELLO_PADDING
                    && hello.payload@ == #[trigger] seal_of(
                    m,
                    hello.nonce@,
                    key_of(old(self)@.identity_sk),
                    client_session_sk,
                )) ==> r is Ok,
            forall|client_session_sk: Seq<u8>, m: Seq<u8>|
                (old(self)@.state == SessionState::Fresh && hello.kind == FrameKind::Hello
                    && hello.id@ == key_of(client_session_sk) && m.len() != HELLO_PADDING
                    && hello.payload@ == #[trigger] seal_of(
                    m,
                    hello.nonce@,
                    key_of(old(self)@.identity_sk),
                    client_session_sk,
                )) ==> (r == Err::<Frame, WhisperError>(WhisperError::InvalidHelloFrame) && final(self)@
                == (ServerSessionView { state: SessionState::Error, ..old(self)@ })),
            (old(self)@.state == SessionState::Fresh && hello.kind == FrameKind::Hello && !(
            exists|m: Seq<u8>|
                hello.payload@ == #[trigger] seal_of(
                    m,
                    hello.nonce@,
                    hello.id@,
                    old(self)@.identity_sk,
                ))) ==> (r == Err::<Frame, WhisperError>(WhisperError::DecryptionFailed) && final(self)@
                == (ServerSessionView { state: SessionState::Error, ..old(self)@ })),
    {
        if self.state != SessionState::Fresh || hello.kind != FrameKind::Hello {
            return Err(WhisperError::InvalidSessionState);
        }
        match crypto::open(
            &hello.payload,
            &hello.nonce,
            &hello.id,
            &self.local_identity_keypair.secret_key,
        ) {
            Some(payload) => {
                if payload.len() != HELLO_PADDING {
                    self.state = SessionState::Error;
                    return Err(WhisperError::InvalidHelloFrame);
                }
                self.state = SessionState::Initiated;
                let nonce = crypto::gen_nonce();
                let welcome_box = crypto::seal(
                    self.local_session_keypair.public_key.as_slice(),
                    &nonce,
                    &hello.id,
                    &self.local_identity_keypair.secret_key,
                );
                let welcome_frame = Frame {
                    // Server uses client id in reply.
                    id: hello.id.clone(),
                    nonce,
                    kind: FrameKind::Welcome,
                    payload: welcome_box,
                };
                Ok(welcome_frame)
            },
            None => {
                self.state = SessionState::Error;
                Err(WhisperError::DecryptionFailed)
            },
        }
    }
}

/// An Initiate frame built the honest way: the client whose view is `c`
/// holds the session key the server expects, its keys are genuine, and the
/// frame carries the client's identity bundle and vouch sealed for the
/// server's session key.
pub open spec fn honest_initiate(
    initiate: Frame,
    server: ServerSessionView,
    c: ClientSessionView,
    vouch_nonce: Seq<u8>,
) -> bool {
    &&& server.remote_session_key == c.session_pk
    &&& c.session_pk == key_of(c.session_sk)
    &&& c.identity_pk == key_of(c.identity_sk)
    &&& c.identity_pk.len() == KEY_SIZE
    &&& initiate_for(initiate, key_of(server.session_sk), c, vouch_nonce)
}

/// An Initiate frame of the honest shape except for the vouch plaintext,
/// which is the arbitrary `vouch`: the outer box, the lengths and the
/// identity bundle are as an honest client builds them, but the vouch box
/// seals `vouch` instead of the client's session key. Used to state that
/// validation accepts no vouch other than the client's session key.
pub open spec fn initiate_with_vouch(
    initiate: Frame,
    server: ServerSessionView,
    c: ClientSessionView,
    vouch_nonce: Seq<u8>,
    vouch: Seq<u8>,
) -> bool {
    &&& server.remote_session_key == c.session_pk
    &&& c.session_pk == key_of(c.session_sk)
    &&& c.identity_pk == key_of(c.identity_sk)
    &&& c.identity_pk.len() == KEY_SIZE
    &&& vouch_nonce.len() == NONCE_SIZE
    &&& seal_of(vouch, vouch_nonce, key_of(server.session_sk), c.identity_sk).len() == vouch.len()
        + TAG_SIZE
    &&& initiate.payload@ == seal_of(
        initiate_plaintext(
            c.identity_pk,
            vouch_nonce,
            seal_of(vouch, vouch_nonce, key_of(server.session_sk), c.identity_sk),
        ),
        initiate.nonce@,
        key_of(server.session_sk),
        c.session_sk,
    )
}

impl ServerSession {
    /// A helper to extract the client's permanent public key from an
    /// Initiate frame in order to authenticate the client. Authentication
    /// itself happens in another place.
    ///
    /// The outer box must open under the session keys, its plaintext must
    /// be long enough to hold the identity key, the vouch nonce and the
    /// vouch box, the vouch must open under the claimed identity key, and
    /// the vouch plaintext must be exactly the client's session key. Only
    /// then does validation succeed, yielding the claimed identity key.
    pub fn validate_initiate(&self, initiate: &Frame) -> (r: WhisperResult<PublicKey>)
        requires
            self.wf(),
            initiate.wf(),
        ensures
            r matches Err(e) ==> e == WhisperError::InvalidInitiateFrame,
            r matches Ok(pk) ==> pk.wf(),
            forall|c: ClientSessionView, vn: Seq<u8>|
                #[trigger] honest_initiate(*initiate, self@, c, vn) ==> (r matches Ok(pk) && pk@
                    == c.identity_pk),
            forall|c: ClientSessionView, vn: Seq<u8>, vouch: Seq<u8>|
                (#[trigger] initiate_with_vouch(*initiate, self@, c, vn, vouch) && vouch
                    != self@.remote_session_key) ==> r == Err::<PublicKey, WhisperError>(
                    WhisperError::InvalidInitiateFrame,
                ),
            r matches Ok(pk) ==> (exists|body: Seq<u8>|
                initiate.payload@ == #[trigger] seal_of(
                    body,
                    initiate.nonce@,
                    self@.remote_session_key,
                    self@.session_sk,
                ) && 60 <= body.len() && pk@ == body.subrange(0, 32) && body.subrange(
                    56,
                    body.len() as int,
                ) == seal_of(
                    self@.remote_session_key,
                    body.subrange(32, 56),
                    pk@,
                    self@.session_sk,
                )),
    {
        match crypto::open(
            &initiate.payload,
            &initiate.nonce,
            &self.remote_session_key,
            &self.local_session_keypair.secret_key,
        ) {
            Some(initiate_payload) => {
                if initiate_payload.len() < 60 {
                    proof {
                        assert forall|c: ClientSessionView, vn: Seq<u8>| !honest_initiate(
                            *initiate,
                            self@,
                            c,
                            vn,
                        ) by {
                            if honest_initiate(*initiate, self@, c, vn) {
                                assert(initiate_payload@ == initiate_plaintext(
                                    c.identity_pk,
                                    vn,
                                    vouch_box_of(c, vn, key_of(self@.session_sk)),
                                ));
                                assert(false);
                            }
                        }
                    }
                    return Err(WhisperError::InvalidInitiateFrame);
                }
                let bs = initiate_payload.as_slice();
                let pk = PublicKey::from_slice(&bs[0..32]).unwrap();
                let v_nonce = Nonce::from_slice(&bs[32..56]).unwrap();
                let v_box = &bs[56..bs.len()];
                match crypto::open(v_box, &v_nonce, &pk, &self.local_session_keypair.secret_key) {
                    Some(vouch_payload) => {
                        if vouch_payload.len() == KEY_SIZE && bytes_eq(
                            vouch_payload.as_slice(),
                            self.remote_session_key.as_slice(),
                        ) {
                            proof {
                                assert forall|c: ClientSessionView, vn: Seq<u8>| #[trigger]
                                    honest_initiate(*initiate, self@, c, vn) implies pk@
                                    == c.identity_pk by {
                                    assert(initiate_payload@ == initiate_plaintext(
                                        c.identity_pk,
                                        vn,
                                        vouch_box_of(c, vn, key_of(self@.session_sk)),
                                    ));
                                    assert(initiate_payload@.subrange(0, 32) =~= c.identity_pk);
                                }
                                assert forall|c: ClientSessionView, vn: Seq<u8>, vouch: Seq<u8>| !(
                                #[trigger] initiate_with_vouch(*initiate, self@, c, vn, vouch)
                                    && vouch != self@.remote_session_key) by {
                                    if initiate_with_vouch(*initiate, self@, c, vn, vouch) {
                                        let vbox = seal_of(
                                            vouch,
                                            vn,
                                            key_of(self@.session_sk),
                                            c.identity_sk,
                                        );
                                        assert(initiate_payload@ == initiate_plaintext(
                                            c.identity_pk,
                                            vn,
                                            vbox,
                                        ));
                                        assert(initiate_payload@.subrange(0, 32)
                                            =~= c.identity_pk);
                                        assert(initiate_payload@.subrange(32, 56) =~= vn);
                                        assert(initiate_payload@.subrange(
                                            56,
                                            initiate_payload@.len() as int,
                                        ) =~= vbox);
                                        assert(vouch_payload@ == vouch);
                                    }
                                }
                                assert(initiate.payload@ == seal_of(
                                    initiate_payload@,
                                    initiate.nonce@,
                                    self@.remote_session_key,
                                    self@.session_sk,
                                ));
                                assert(v_box@ == seal_of(
                                    vouch_payload@,
                                    v_nonce@,
                                    pk@,
                                    self@.session_sk,
                                ));
                                assert(vouch_payload@ == self@.remote_session_key);
                                assert(pk@ == initiate_payload@.subrange(0, 32));
                                assert(v_nonce@ == initiate_payload@.subrange(32, 56));
                                assert(v_box@ == initiate_payload@.subrange(
                                    56,
                                    initiate_payload@.len() as int,
                                ));
                            }
                            Ok(pk)
                        } else {
                            proof {
                                assert forall|c: ClientSessionView, vn: Seq<u8>| !honest_initiate(
                                    *initiate,
                                    self@,
                                    c,
                                    vn,
                                ) by {
                                    if honest_initiate(*initiate, self@, c, vn) {
                                        assert(initiate_payload@ == initiate_plaintext(
                                            c.identity_pk,
                                            vn,
                                            vouch_box_of(c, vn, key_of(self@.session_sk)),
                                        ));
                                        assert(initiate_payload@.subrange(0, 32)
                                            =~= c.identity_pk);
                                        assert(initiate_payload@.subrange(32, 56) =~= vn);
                                        assert(initiate_payload@.subrange(
                                            56,
                                            initiate_payload@.len() as int,
                                        ) =~= vouch_box_of(c, vn, key_of(self@.session_sk)));
                                        assert(vouch_payload@ == c.session_pk);
                                        assert(false);
                                    }
                                }
                            }
                            Err(WhisperError::InvalidInitiateFrame)
                        }
                    },
                    None => {
                        proof {
                            assert forall|c: ClientSessionView, vn: Seq<u8>| !honest_initiate(
                                *initiate,
                                self@,
                                c,
                                vn,
                            ) by {
                                if honest_initiate(*initiate, self@, c, vn) {
                                    assert(initiate_payload@ == initiate_plaintext(
                                        c.identity_pk,
                                        vn,
                                        vouch_box_of(c, vn, key_of(self@.session_sk)),
                                    ));
                                    assert(initiate_payload@.subrange(0, 32) =~= c.identity_pk);
                                    assert(initiate_payload@.subrange(32, 56) =~= vn);
                                    assert(initiate_payload@.subrange(
                                        56,
                                        initiate_payload@.len() as int,
                                    ) =~= vouch_box_of(c, vn, key_of(self@.session_sk)));
                                    assert(false);
                                }
                            }
                        }
                        Err(WhisperError::InvalidInitiateFrame)
                    },
                }
            },
            None => {
                proof {
                    assert forall|c: ClientSessionView, vn: Seq<u8>| !honest_initiate(
                        *initiate,
                        self@,
                        c,
                        vn,
                    ) by {
                        if honest_initiate(*initiate, self@, c, vn) {
                            assert(false);
                        }
                    }
                }
                Err(WhisperError::InvalidInitiateFrame)
            },
        }
    }

    /// Helper to make a Ready frame, a reply to an Initiate frame, taking
    /// `now` as the current instant. Server workflow. Fails with
    /// `ExpiredSession` exactly when the handshake window has closed at
    /// `now`; on success the session becomes Ready, the client identity is
    /// recorded, and the established session is returned alongside the
    /// frame.
    pub fn make_ready_at(
        &mut self,
        initiate: &Frame,
        client_identity_key: &PublicKey,
        now: i64,
    ) -> (r: WhisperResult<(EstablishedSession, Frame)>)
        requires
            old(self).wf(),
            initiate.wf(),
            client_identity_key.wf(),
        ensures
            final(self).wf(),
            !(old(self)@.state == SessionState::Initiated && initiate.kind == FrameKind::Initiate)
                ==> (r == Err::<(EstablishedSession, Frame), WhisperError>(
                WhisperError::InvalidSessionState,
            ) && *final(self) == *old(self)),
            (old(self)@.state == SessionState::Initiated && initiate.kind == FrameKind::Initiate
                && now > old(self)@.expire_at) ==> (r == Err::<
                (EstablishedSession, Frame),
                WhisperError,
            >(WhisperError::ExpiredSession) && *final(self) == *old(self)),
            (old(self)@.state == SessionState::Initiated && initiate.kind == FrameKind::Initiate
                && now <= old(self)@.expire_at) ==> (r matches Ok(p) && final(self)@ == (
            ServerSessionView {
                state: SessionState::Ready,
                remote_identity_key: Some(client_identity_key@),
                ..old(self)@
            }) && p.0.wf() && p.0@.id == old(self)@.remote_session_key && p.0@.secret == precomp_of(
                old(self)@.remote_session_key,
                old(self)@.session_sk,
            ) && (forall|peer_sk: Seq<u8>|
                old(self)@.remote_session_key == #[trigger] key_of(peer_sk) ==> p.0@.secret
                    == precomp_of(key_of(old(self)@.session_sk), peer_sk)) && p.1.wf() && p.1.kind
                == FrameKind::Ready && p.1.id@ == initiate.id@ && p.1.payload@ == sealp_of(
                ready_plaintext(),
                p.1.nonce@,
                p.0@.secret,
            )),
    {
        if self.state != SessionState::Initiated || initiate.kind != FrameKind::Initiate {
            return Err(WhisperError::InvalidSessionState);
        }
        // If the client spent more than the handshake window to come up
        // with the Initiate frame, turn it away.
        if now > self.expire_at {
            return Err(WhisperError::ExpiredSession);
        }
        self.state = SessionState::Ready;
        self.remote_identity_key = Some(client_identity_key.clone());
        let session = EstablishedSession::new_for_server(
            self.remote_session_key.clone(),
            self.local_session_keypair.clone(),
        );
        let rp = ready_payload();
        let (nonce, payload) = session.seal_msg(rp.as_slice());
        let frame = Frame { id: initiate.id.clone(), nonce, kind: FrameKind::Ready, payload };
        Ok((session, frame))
    }

    /// Helper to make a Ready frame at the current instant. Server
    /// workflow.
    pub fn make_ready(&mut self, initiate: &Frame, client_identity_key: &PublicKey) -> (r:
        WhisperResult<(EstablishedSession, Frame)>)
        requires
            old(self).wf(),
            initiate.wf(),
            client_identity_key.wf(),
        ensures
            final(self).wf(),
            !(old(self)@.state == SessionState::Initiated && initiate.kind == FrameKind::Initiate)
                ==> (r == Err::<(EstablishedSession, Frame), WhisperError>(
                WhisperError::InvalidSessionState,
            ) && *final(self) == *old(self)),
            (old(self)@.state == SessionState::Initiated && initiate.kind == FrameKind::Initiate)
                ==> (r matches Err(e) ==> (e == WhisperError::ExpiredSession && *final(self)
                == *old(self))),
            (old(self)@.state == SessionState::Initiated && initiate.kind == FrameKind::Initiate)
                ==> (r matches Ok(p) ==> (final(self)@ == (ServerSessionView {
                state: SessionState::Ready,
                remote_identity_key: Some(client_identity_key@),
                ..old(self)@
            }) && p.0.wf() && p.0@.id == old(self)@.remote_session_key && p.0@.secret == precomp_of(
                old(self)@.remote_session_key,
                old(self)@.session_sk,
            ) && (forall|peer_sk: Seq<u8>|
                old(self)@.remote_session_key == #[trigger] key_of(peer_sk) ==> p.0@.secret
                    == precomp_of(key_of(old(self)@.session_sk), peer_sk)) && p.1.wf() && p.1.kind
                == FrameKind::Ready && p.1.id@ == initiate.id@ && p.1.payload@ == sealp_of(
                ready_plaintext(),
                p.1.nonce@,
                p.0@.secret,
            ))),
    {
        let now = now_ms();
        self.make_ready_at(initiate, client_identity_key, now)
    }
}

impl ClientSession {
    /// Verify that the reply to the Initiate frame is a correct Ready
    /// frame. Changes session state if so and returns the established
    /// session. Client workflow.
    pub fn read_ready(&mut self, ready: &Frame) -> (r: WhisperResult<EstablishedSession>)
        requires
            old(self).wf(),
            ready.wf(),
            old(self)@.state == SessionState::Initiated ==> old(self)@.remote_session_key is Some,
        ensures
            final(self).wf(),
            !(old(self)@.state == SessionState::Initiated && ready.kind == FrameKind::Ready) ==> (
            r == Err::<EstablishedSession, WhisperError>(WhisperError::InvalidSessionState)
                && *final(self) == *old(self)),
            (old(self)@.state == SessionState::Initiated && ready.kind == FrameKind::Ready) ==> (
            r matches Err(e) ==> ((e == WhisperError::DecryptionFailed || e
                == WhisperError::InvalidReadyFrame) && final(self)@ == (ClientSessionView {
                state: SessionState::Error,
                ..old(self)@
            }))),
            (old(self)@.state == SessionState::Initiated && ready.kind == FrameKind::Ready) ==> (
            r matches Ok(es) ==> (final(self)@ == (ClientSessionView {
                state: SessionState::Ready,
                ..old(self)@
            }) && es.wf() && es@.id == old(self)@.session_pk && (
            old(self)@.remote_session_key matches Some(spk) && es@.secret == precomp_of(
                spk,
                old(self)@.session_sk,
            ) && (forall|peer_sk: Seq<u8>|
                spk == #[trigger] key_of(peer_sk) ==> es@.secret == precomp_of(
                    key_of(old(self)@.session_sk),
                    peer_sk,
                ))))),
            forall|peer_sk: Seq<u8>|
                (old(self)@.state == SessionState::Initiated && ready.kind == FrameKind::Ready
                    && old(self)@.remote_session_key == Some(key_of(peer_sk)) && ready.payload@
                    == #[trigger] sealp_of(
                    ready_plaintext(),
                    ready.nonce@,
                    precomp_of(key_of(old(self)@.session_sk), peer_sk),
                )) ==> r is Ok,
            forall|peer_sk: Seq<u8>, m: Seq<u8>|
                (old(self)@.state == SessionState::Initiated && ready.kind == FrameKind::Ready
                    && old(self)@.remote_session_key == Some(key_of(peer_sk)) && m
                    != ready_plaintext() && ready.payload@ == #[trigger] sealp_of(
                    m,
                    ready.nonce@,
                    precomp_of(key_of(old(self)@.session_sk), peer_sk),
                )) ==> (r == Err::<EstablishedSession, WhisperError>(
                    WhisperError::InvalidReadyFrame,
                ) && final(self)@ == (ClientSessionView {
                    state: SessionState::Error,
                    ..old(self)@
                })),
            forall|spk: Seq<u8>|
                (old(self)@.state == SessionState::Initiated && ready.kind == FrameKind::Ready
                    && old(self)@.remote_session_key == Some(spk) && !(exists|m: Seq<u8>|
                    ready.payload@ == #[trigger] sealp_of(
                        m,
                        ready.nonce@,
                        precomp_of(spk, old(self)@.session_sk),
                    ))) ==> (r == Err::<EstablishedSession, WhisperError>(
                    WhisperError::DecryptionFailed,
                ) && final(self)@ == (ClientSessionView {
                    state: SessionState::Error,
                    ..old(self)@
                })),
    {
        if self.state != SessionState::Initiated || ready.kind != FrameKind::Ready {
            return Err(WhisperError::InvalidSessionState);
        }
        let remote = match &self.remote_session_key {
            Some(k) => k.clone(),
            None => {
                proof {
                    assert(false);
                }
                return Err(WhisperError::InvalidSessionState);
            },
        };
        let session = EstablishedSession::new(remote, self.local_session_keypair.clone());
        match session.read_msg(ready) {
            Ok(msg) => {
                let rp = ready_payload();
                if bytes_eq(msg.as_slice(), rp.as_slice()) {
                    self.state = SessionState::Ready;
                    Ok(session)
                } else {
                    self.state = SessionState::Error;
                    Err(WhisperError::InvalidReadyFrame)
                }
            },
            Err(_) => {
                self.state = SessionState::Error;
                Err(WhisperError::DecryptionFailed)
            },
        }
    }
}


/// Handshake success law: for any two well-formed identity keypairs, the
/// four-message exchange between a fresh client session and a fresh server
/// session completes, and the two established sessions hold the same shared
/// secret and the same session id (the client's ephemeral public key).
pub fn run_handshake(client_identity: KeyPair, server_identity: KeyPair) -> (r: WhisperResult<
    (EstablishedSession, EstablishedSession),
>)
    requires
        client_identity.wf(),
        server_identity.wf(),
    ensures
        r is Ok,
        r matches Ok(p) ==> (p.0.wf() && p.1.wf() && p.0@.secret == p.1@.secret && p.0@.id
            == p.1@.id),
{
    let server_identity_pk = server_identity.public_key.clone();
    let mut client_session = ClientSession::new(client_identity, server_identity_pk);
    let mut server_session = ServerSession::new(server_identity, client_session.id());
    let ghost c0 = client_session@;
    let ghost s0 = server_session@;

    let hello_frame = client_session.make_hello();
    proof {
        assert(hello_frame.id@ == key_of(c0.session_sk));
        assert(hello_frame.payload@ == seal_of(
            zero_bytes(HELLO_PADDING as nat),
            hello_frame.nonce@,
            key_of(s0.identity_sk),
            c0.session_sk,
        ));
    }
    let welcome_frame = match server_session.make_welcome(&hello_frame) {
        Ok(w) => w,
        Err(_) => {
            proof {
                assert(false);
            }
            return Err(WhisperError::InvalidSessionState);
        },
    };
    let ghost c1 = client_session@;
    let initiate_frame = match client_session.make_initiate(&welcome_frame) {
        Ok(f) => f,
        Err(_) => {
            proof {
                assert(false);
            }
            return Err(WhisperError::InvalidSessionState);
        },
    };
    proof {
        assert(client_session@.remote_session_key == Some(s0.session_pk));
        let vn = choose|vn: Seq<u8>| #[trigger] initiate_for(initiate_frame, s0.session_pk, c1, vn);
        assert(initiate_for(initiate_frame, key_of(server_session@.session_sk), c1, vn));
        assert(honest_initiate(initiate_frame, server_session@, c1, vn));
    }
    let client_identity_key = match server_session.validate_initiate(&initiate_frame) {
        Ok(k) => k,
        Err(_) => {
            proof {
                assert(false);
            }
            return Err(WhisperError::InvalidSessionState);
        },
    };
    let now = server_session.created_at();
    let pair = match server_session.make_ready_at(&initiate_frame, &client_identity_key, now) {
        Ok(p) => p,
        Err(_) => {
            proof {
                assert(false);
            }
            return Err(WhisperError::InvalidSessionState);
        },
    };
    let server_established = pair.0;
    let ready_frame = pair.1;
    proof {
        assert(server_established@.secret == precomp_of(key_of(c0.session_sk), s0.session_sk));
    }
    let client_established = match client_session.read_ready(&ready_frame) {
        Ok(es) => es,
        Err(_) => {
            proof {
                assert(false);
            }
            return Err(WhisperError::InvalidSessionState);
        },
    };
    proof {
        assert(client_established@.secret == precomp_of(key_of(c0.session_sk), s0.session_sk));
    }
    Ok((client_established, server_established))
}

/// Handshake success law on freshly generated identities: generating two
/// identity keypairs and running the exchange always succeeds, and both
/// sides end with the same shared secret and session id.
pub fn run_handshake_with_fresh_keys() -> (r: WhisperResult<
    (EstablishedSession, EstablishedSession),
>)
    ensures
        r is Ok,
        r matches Ok(p) ==> (p.0.wf() && p.1.wf() && p.0@.secret == p.1@.secret && p.0@.id
            == p.1@.id),
{
    let client_identity = KeyPair::new();
    let server_identity = KeyPair::new();
    run_handshake(client_identity, server_identity)
}

/// Channel correctness law: when two established sessions hold the same
/// shared secret and the sender has not expired at `now`, a Request sealed
/// by the sender opens on the receiver to exactly the original bytes.
pub fn exchange_request(
    sender: &EstablishedSession,
    receiver: &EstablishedSession,
    data: &[u8],
    now: i64,
) -> (r: WhisperResult<Vec<u8>>)
    requires
        sender.wf(),
        receiver.wf(),
    ensures
        (sender@.secret == receiver@.secret && now < sender@.expire_at) ==> (r matches Ok(m) && m@
            == data@),
{
    match sender.make_request_at(data, now) {
        Ok(f) => receiver.read_msg(&f),
        Err(e) => Err(e),
    }
}

} // verus!
