//! Keys, nonces and the authenticated-box primitive.
//!
//! Key and nonce values are held as plain byte vectors so that the frame
//! codec and the handshake logic can be reasoned about directly; the box
//! primitive itself is provided by sodiumoxide behind a small set of trusted
//! wrappers. What each crypto function computes is left abstract: a wrapper
//! only names its result, and states the few facts its callers need.

use vstd::prelude::*;
use vstd::slice::slice_to_vec;

use crate::errors::{WhisperError, WhisperResult};

verus! {

/// Number of bytes in a public key, a secret key and a precomputed key.
pub const KEY_SIZE: usize = 32;
/// Number of bytes in a nonce.
pub const NONCE_SIZE: usize = 24;
/// Number of bytes the box primitive adds to a plaintext: the authenticator
/// tag.
pub const TAG_SIZE: usize = 16;

/// The public key that the box primitive derives from a secret key.
pub uninterp spec fn key_of(sk: Seq<u8>) -> Seq<u8>;

/// The symmetric key precomputed from one side's public key and the other
/// side's secret key.
pub uninterp spec fn precomp_of(pk: Seq<u8>, sk: Seq<u8>) -> Seq<u8>;

/// The ciphertext of an authenticated box under a precomputed key.
pub uninterp spec fn sealp_of(m: Seq<u8>, n: Seq<u8>, k: Seq<u8>) -> Seq<u8>;

/// The ciphertext of an authenticated box between two keypairs: the box
/// under the key precomputed from the recipient's public key and the
/// sender's secret key. This is also how the exec wrappers compute it, so
/// the result is a total function of its arguments, whatever bytes stand in
/// the key positions.
pub open spec fn seal_of(m: Seq<u8>, n: Seq<u8>, pk: Seq<u8>, sk: Seq<u8>) -> Seq<u8> {
    sealp_of(m, n, precomp_of(pk, sk))
}

/// A 32-byte public key.
#[derive(Debug, PartialEq, Eq, Hash)]
pub struct PublicKey {
    bytes: Vec<u8>,
}

impl View for PublicKey {
    type V = Seq<u8>;

    closed spec fn view(&self) -> Seq<u8> {
        self.bytes@
    }
}

impl Clone for PublicKey {
    fn clone(&self) -> (r: Self)
        ensures
            r@ == self@,
    {
        PublicKey { bytes: slice_to_vec(self.bytes.as_slice()) }
    }
}

impl PublicKey {
    /// Holds exactly when the key has its full 32 bytes.
    pub open spec fn wf(&self) -> bool {
        self@.len() == KEY_SIZE
    }

    /// Builds a key from a slice; fails exactly when the slice is not
    /// 32 bytes long.
    pub fn from_slice(bs: &[u8]) -> (r: Option<PublicKey>)
        ensures
            r is Some <==> bs@.len() == KEY_SIZE,
            r matches Some(pk) ==> pk@ == bs@ && pk.wf(),
    {
        if bs.len() == KEY_SIZE {
            Some(PublicKey { bytes: slice_to_vec(bs) })
        } else {
            None
        }
    }

    /// The key's bytes.
    pub fn as_slice(&self) -> (r: &[u8])
        ensures
            r@ == self@,
    {
        self.bytes.as_slice()
    }
}

/// A 32-byte secret key.
#[derive(Debug)]
pub struct SecretKey {
    bytes: Vec<u8>,
}

impl View for SecretKey {
    type V = Seq<u8>;

    closed spec fn view(&self) -> Seq<u8> {
        self.bytes@
    }
}

impl Clone for SecretKey {
    fn clone(&self) -> (r: Self)
        ensures
            r@ == self@,
    {
        SecretKey { bytes: slice_to_vec(self.bytes.as_slice()) }
    }
}

impl SecretKey {
    /// Holds exactly when the key has its full 32 bytes.
    pub open spec fn wf(&self) -> bool {
        self@.len() == KEY_SIZE
    }
}

/// A 24-byte nonce, fresh per sealed payload.
#[derive(Debug, PartialEq, Eq, Hash)]
pub struct Nonce {
    bytes: Vec<u8>,
}

impl View for Nonce {
    type V = Seq<u8>;

    closed spec fn view(&self) -> Seq<u8> {
        self.bytes@
    }
}

impl Clone for Nonce {
    fn clone(&self) -> (r: Self)
        ensures
            r@ == self@,
    {
        Nonce { bytes: slice_to_vec(self.bytes.as_slice()) }
    }
}

impl Nonce {
    /// Holds exactly when the nonce has its full 24 bytes.
    pub open spec fn wf(&self) -> bool {
        self@.len() == NONCE_SIZE
    }

    /// Builds a nonce from a slice; fails exactly when the slice is not
    /// 24 bytes long.
    pub fn from_slice(bs: &[u8]) -> (r: Option<Nonce>)
        ensures
            r is Some <==> bs@.len() == NONCE_SIZE,
            r matches Some(n) ==> n@ == bs@ && n.wf(),
    {
        if bs.len() == NONCE_SIZE {
            Some(Nonce { bytes: slice_to_vec(bs) })
        } else {
            None
        }
    }

    /// The nonce's bytes.
    pub fn as_slice(&self) -> (r: &[u8])
        ensures
            r@ == self@,
    {
        self.bytes.as_slice()
    }
}

/// A 32-byte precomputed symmetric key.
#[derive(Debug)]
pub struct PrecomputedKey {
    bytes: Vec<u8>,
}

impl View for PrecomputedKey {
    type V = Seq<u8>;

    closed spec fn view(&self) -> Seq<u8> {
        self.bytes@
    }
}

impl Clone for PrecomputedKey {
    fn clone(&self) -> (r: Self)
        ensures
            r@ == self@,
    {
        PrecomputedKey { bytes: slice_to_vec(self.bytes.as_slice()) }
    }
}

impl PrecomputedKey {
    /// Holds exactly when the key has its full 32 bytes.
    pub open spec fn wf(&self) -> bool {
        self@.len() == KEY_SIZE
    }
}

/// A pair of public and secret key, used both for long-term identities and
/// for per-session ephemeral keys.
#[derive(Debug)]
pub struct KeyPair {
    /// Public key.
    pub public_key: PublicKey,
    /// Secret key.
    pub secret_key: SecretKey,
}

impl Clone for KeyPair {
    fn clone(&self) -> (r: Self)
        ensures
            r.public_key@ == self.public_key@,
            r.secret_key@ == self.secret_key@,
    {
        KeyPair { public_key: self.public_key.clone(), secret_key: self.secret_key.clone() }
    }
}

impl KeyPair {
    /// Holds exactly when both keys are full length and the public key is
    /// the one the box primitive derives from the secret key.
    pub open spec fn wf(&self) -> bool {
        &&& self.public_key.wf()
        &&& self.secret_key.wf()
        &&& self.public_key@ == key_of(self.secret_key@)
    }

    /// Generate a new keypair.
    ///
    /// Relies on sodiumoxide's `box_::gen_keypair`: it returns a fresh
    /// 32-byte secret key together with the public key derived from it.
    #[verifier::external_body]
    pub fn new() -> (r: KeyPair)
        ensures
            r.wf(),
    {
        let (pk, sk) = sodiumoxide::crypto::box_::gen_keypair();
        KeyPair {
            public_key: PublicKey { bytes: pk.0.to_vec() },
            secret_key: SecretKey { bytes: sk.0.to_vec() },
        }
    }
}

/// Initialize the crypto library. Must be called once before keypair or
/// nonce generation is used from several threads; calling it again is
/// harmless.
///
/// Relies on `sodiumoxide::init`: it fails only when the library cannot be
/// set up, for example on a machine without enough entropy.
#[verifier::external_body]
pub fn init() -> (r: WhisperResult<()>)
    ensures
        r matches Err(e) ==> e == WhisperError::InitializationFailed,
{
    match sodiumoxide::init() {
        Ok(()) => Ok(()),
        Err(()) => Err(WhisperError::InitializationFailed),
    }
}

/// Generate a fresh random nonce.
///
/// Relies on sodiumoxide's `box_::gen_nonce`: it returns 24 random bytes;
/// nothing else can be promised of a random value.
#[verifier::external_body]
pub fn gen_nonce() -> (r: Nonce)
    ensures
        r.wf(),
{
    let n = sodiumoxide::crypto::box_::gen_nonce();
    Nonce { bytes: n.0.to_vec() }
}

/// Relies on sodiumoxide's `box_::precompute` and `box_::seal_precomputed`:
/// the box is sealed under the precomputed key, a deterministic total
/// function of the two keys (on a degenerate public key the precomputed key
/// is the all-zero fallback), and is 16 bytes longer than the plaintext.
/// For genuine keys this produces the same bytes as the one-step box seal.
#[verifier::external_body]
pub(crate) fn seal(m: &[u8], n: &Nonce, their_pk: &PublicKey, our_sk: &SecretKey) -> (r: Vec<u8>)
    requires
        n.wf(),
        their_pk.wf(),
        our_sk.wf(),
    ensures
        r@ == seal_of(m@, n@, their_pk@, our_sk@),
        r@.len() == m@.len() + TAG_SIZE,
{
    let n0 = sodiumoxide::crypto::box_::Nonce::from_slice(&n.bytes).unwrap();
    let pk0 = sodiumoxide::crypto::box_::PublicKey::from_slice(&their_pk.bytes).unwrap();
    let sk0 = sodiumoxide::crypto::box_::SecretKey::from_slice(&our_sk.bytes).unwrap();
    let k = sodiumoxide::crypto::box_::precompute(&pk0, &sk0);
    sodiumoxide::crypto::box_::seal_precomputed(m, &n0, &k)
}

/// Relies on sodiumoxide's `box_::precompute` and `box_::open_precomputed`:
/// the box is opened under the precomputed key. It succeeds exactly when the
/// ciphertext is a box under that key, so success returns the plaintext the
/// ciphertext was sealed from (re-encrypting it reproduces the ciphertext
/// and its tag), and any box sealed with the matching nonce and counterpart
/// keys opens, the two key orders deriving the same precomputed key.
#[verifier::external_body]
pub(crate) fn open(c: &[u8], n: &Nonce, their_pk: &PublicKey, our_sk: &SecretKey) -> (r: Option<
    Vec<u8>,
>)
    requires
        n.wf(),
        their_pk.wf(),
        our_sk.wf(),
    ensures
        r matches Some(p) ==> p@.len() + TAG_SIZE == c@.len(),
        r matches Some(p) ==> c@ == seal_of(p@, n@, their_pk@, our_sk@),
        r is None ==> forall|m: Seq<u8>, peer_sk: Seq<u8>|
            !(their_pk@ == key_of(peer_sk) && c@ == #[trigger] seal_of(
                m,
                n@,
                key_of(our_sk@),
                peer_sk,
            )),
        r matches Some(p) ==> forall|m: Seq<u8>, peer_sk: Seq<u8>|
            their_pk@ == key_of(peer_sk) && c@ == #[trigger] seal_of(
                m,
                n@,
                key_of(our_sk@),
                peer_sk,
            ) ==> p@ == m,
{
    let n0 = sodiumoxide::crypto::box_::Nonce::from_slice(&n.bytes).unwrap();
    let pk0 = sodiumoxide::crypto::box_::PublicKey::from_slice(&their_pk.bytes).unwrap();
    let sk0 = sodiumoxide::crypto::box_::SecretKey::from_slice(&our_sk.bytes).unwrap();
    let k = sodiumoxide::crypto::box_::precompute(&pk0, &sk0);
    sodiumoxide::crypto::box_::open_precomputed(c, &n0, &k).ok()
}

/// Relies on sodiumoxide's `box_::precompute`: it derives the symmetric key
/// from the Diffie-Hellman agreement of the two keys, which both orders of
/// the two keypairs reach.
#[verifier::external_body]
pub(crate) fn precompute(their_pk: &PublicKey, our_sk: &SecretKey) -> (r: PrecomputedKey)
    requires
        their_pk.wf(),
        our_sk.wf(),
    ensures
        r@ == precomp_of(their_pk@, our_sk@),
        r.wf(),
        forall|peer_sk: Seq<u8>|
            their_pk@ == #[trigger] key_of(peer_sk) ==> r@ == precomp_of(
                key_of(our_sk@),
                peer_sk,
            ),
{
    let pk0 = sodiumoxide::crypto::box_::PublicKey::from_slice(&their_pk.bytes).unwrap();
    let sk0 = sodiumoxide::crypto::box_::SecretKey::from_slice(&our_sk.bytes).unwrap();
    let k = sodiumoxide::crypto::box_::precompute(&pk0, &sk0);
    PrecomputedKey { bytes: k.0.to_vec() }
}

/// Relies on sodiumoxide's `box_::seal_precomputed`: authenticated
/// encryption under a precomputed key, a function of plaintext, nonce and
/// key, 16 bytes longer than the plaintext.
#[verifier::external_body]
pub(crate) fn seal_precomputed(m: &[u8], n: &Nonce, k: &PrecomputedKey) -> (r: Vec<u8>)
    requires
        n.wf(),
        k.wf(),
    ensures
        r@ == sealp_of(m@, n@, k@),
        r@.len() == m@.len() + TAG_SIZE,
{
    let n0 = sodiumoxide::crypto::box_::Nonce::from_slice(&n.bytes).unwrap();
    let k0 = sodiumoxide::crypto::box_::PrecomputedKey::from_slice(&k.bytes).unwrap();
    sodiumoxide::crypto::box_::seal_precomputed(m, &n0, &k0)
}

/// Relies on sodiumoxide's `box_::open_precomputed`: it verifies and
/// decrypts. It succeeds exactly when the ciphertext is a box under the key
/// and nonce: success returns the plaintext the ciphertext was sealed from
/// (re-encrypting it reproduces the ciphertext and its tag), and any box
/// sealed under the same precomputed key and nonce opens.
#[verifier::external_body]
pub(crate) fn open_precomputed(c: &[u8], n: &Nonce, k: &PrecomputedKey) -> (r: Option<Vec<u8>>)
    requires
        n.wf(),
        k.wf(),
    ensures
        r matches Some(p) ==> p@.len() + TAG_SIZE == c@.len(),
        r matches Some(p) ==> c@ == sealp_of(p@, n@, k@),
        r is None ==> forall|m: Seq<u8>| c@ != #[trigger] sealp_of(m, n@, k@),
        r matches Some(p) ==> forall|m: Seq<u8>|
            c@ == #[trigger] sealp_of(m, n@, k@) ==> p@ == m,
{
    let n0 = sodiumoxide::crypto::box_::Nonce::from_slice(&n.bytes).unwrap();
    let k0 = sodiumoxide::crypto::box_::PrecomputedKey::from_slice(&k.bytes).unwrap();
    sodiumoxide::crypto::box_::open_precomputed(c, &n0, &k0).ok()
}

} // verus!
