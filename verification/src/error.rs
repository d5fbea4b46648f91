//! Error taxonomy of the adapter and the translation of engine alerts.
//!
//! Every failure the adapter can surface is one of three kinds: a setup step
//! rejected at construction, event handlers that could not be unregistered
//! after a negotiate step, or a failed handshake carrying a cryptographic
//! error. A cryptographic error always carries a TLS alert code; when the
//! engine reports a failure without an alert, the fixed generic
//! handshake-failure alert stands in.

use vstd::prelude::*;

verus! {

/// TLS alert code for a generic handshake failure.
pub const HANDSHAKE_FAILURE_ALERT: u8 = 40;

/// First code of the transport error range reserved for cryptographic errors.
pub const CRYPTO_ERROR_BASE: u64 = 0x100;

/// Transport error code for failures that carry no alert at all.
pub const INTERNAL_ERROR_CODE: u64 = 0x1;

/// A cryptographic error, carrying the TLS alert code that caused it.
#[derive(Clone, Copy, Debug, PartialEq, Eq, Structural)]
pub struct CryptoError {
    pub code: u8,
}

/// The transport's generic error representation, a single error code.
#[derive(Clone, Copy, Debug, PartialEq, Eq, Structural)]
pub struct TransportError {
    pub code: u64,
}

/// A failure surfaced by a session: a setup step rejected by the engine at
/// construction, event handlers that could not be cleanly unregistered, or a
/// failed handshake with its cryptographic error.
#[derive(Clone, Copy, Debug, PartialEq, Eq, Structural)]
pub enum Error {
    Construction,
    Detachment,
    Handshake(CryptoError),
}

/// What translating an optional alert code yields: an error carrying the
/// alert's own code, or the fixed generic handshake failure when the engine
/// reported no alert.
pub open spec fn spec_translate_alert(alert: Option<u8>) -> CryptoError {
    match alert {
        Some(code) => CryptoError { code },
        None => CryptoError { code: HANDSHAKE_FAILURE_ALERT },
    }
}

/// Translate the alert code optionally reported by the external engine into
/// a cryptographic error. Total: every alert code, including "none", maps to
/// exactly one error value.
pub fn translate_alert(alert: Option<u8>) -> (r: CryptoError)
    ensures
        r == spec_translate_alert(alert),
{
    match alert {
        Some(code) => CryptoError { code },
        None => CryptoError { code: HANDSHAKE_FAILURE_ALERT },
    }
}

/// The transport error code an adapter error is wrapped into: cryptographic
/// errors land in the transport's crypto-error range, offset by their alert
/// code; every other failure maps to the internal-error code.
pub open spec fn spec_transport_code(e: Error) -> int {
    match e {
        Error::Construction => INTERNAL_ERROR_CODE as int,
        Error::Detachment => INTERNAL_ERROR_CODE as int,
        Error::Handshake(c) => CRYPTO_ERROR_BASE + c.code,
    }
}

impl Error {
    /// Wrap this error into the transport's generic representation.
    pub fn to_transport(&self) -> (r: TransportError)
        ensures
            r.code == spec_transport_code(*self),
    {
        match self {
            Error::Construction => TransportError { code: INTERNAL_ERROR_CODE },
            Error::Detachment => TransportError { code: INTERNAL_ERROR_CODE },
            Error::Handshake(c) => TransportError { code: CRYPTO_ERROR_BASE + (c.code as u64) },
        }
    }
}

/// LAW: translation of alert codes is deterministic — two results of
/// translating the same alert are the same error value.
pub proof fn lemma_translate_alert_deterministic(
    alert: Option<u8>,
    r1: CryptoError,
    r2: CryptoError,
)
    requires
        r1 == spec_translate_alert(alert),
        r2 == spec_translate_alert(alert),
    ensures
        r1 == r2,
{
}

/// LAW: translating "no alert" always yields the fixed generic
/// handshake-failure error.
pub proof fn lemma_translate_no_alert()
    ensures
        spec_translate_alert(None) == (CryptoError { code: HANDSHAKE_FAILURE_ALERT }),
{
}

} // verus!
