//! A handshake adapter that lets a QUIC transport drive TLS negotiation
//! through an external, callback-based handshake engine.
//!
//! The transport owns a [`session::Session`] and repeatedly asks it to
//! advance the handshake; the session attaches a scoped callback adapter to
//! the engine for exactly the duration of one negotiate step, interprets the
//! outcome, and reports completion to the caller exactly once.

pub mod buffer;
pub mod callback;
pub mod endpoint;
pub mod engine;
pub mod error;
pub mod session;
pub mod suite;
pub mod testing;
