//! Error kinds returned by this library.

use vstd::prelude::*;

verus! {

/// Every failure a caller can observe. Each value is a terminal report for
/// the operation that produced it.
#[derive(Debug, Clone, Copy, PartialEq, Eq, Structural)]
pub enum WhisperError {
    /// Server sent invalid payload for Ready frame.
    InvalidReadyFrame,
    /// Client sent invalid payload for Hello frame.
    InvalidHelloFrame,
    /// Decryption of payload failed.
    DecryptionFailed,
    /// Server sent invalid Welcome frame.
    InvalidWelcomeFrame,
    /// Client sent invalid Initiate frame.
    InvalidInitiateFrame,
    /// Not having enough bytes to decode frame.
    IncompleteFrame,
    /// Either restarting a handshake or forgetting to do handshake at all.
    InvalidSessionState,
    /// Enough bytes to decode, but bytes make no sense.
    BadFrame,
    /// Trying to use expired session.
    ExpiredSession,
    /// Initialization of the crypto library failed, for example on a machine
    /// without enough entropy.
    InitializationFailed,
}

/// Result type used by this library.
pub type WhisperResult<T> = Result<T, WhisperError>;

} // verus!
