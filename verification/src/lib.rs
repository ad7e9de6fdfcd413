//! Wire protocol core: a binary frame codec and a mutually authenticated
//! four-message handshake in the CurveCP/CurveZMQ family, which negotiates a
//! shared symmetric secret and then secures application messages under it.
//!
//! The caller owns the transport: this crate only builds and validates
//! frames, drives the handshake state machines and seals or opens
//! application payloads.

pub mod crypto;
pub mod errors;
pub mod frame;
pub mod session;
