//! Keyed, direction-specific obfuscation for a reliable ordered byte stream.
//!
//! A shared 32-byte secret is expanded into two independent keystreams, one
//! per direction of a full-duplex connection. Every byte that crosses the
//! wire is combined with the next byte of its direction's keystream, so the
//! two peers stay decodable to each other exactly as long as they consume
//! their keystreams in step.
//!
//! The crate holds the state and the arithmetic of that scheme. Sockets,
//! locks and task scheduling belong to the caller.

pub mod kdf;
pub mod keystream;
pub mod laws;
pub mod session;
