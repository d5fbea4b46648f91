//! The static key-role mapping.
//!
//! A crypto suite fixes, once per suite choice, the concrete key type used
//! for each abstract key role and for the header-protection key paired with
//! it. Consumers read this mapping to know what kind of key material to
//! expect when the callback adapter reports a key-derivation event; because
//! the whole mapping is chosen by a single suite, key types of different
//! suites can never be mixed.

use vstd::prelude::*;

verus! {

/// The five abstract roles a derived key can serve. Each role also has a
/// paired header-protection key, mapped by the suite alongside it.
#[derive(Clone, Copy, Debug, PartialEq, Eq, Structural)]
pub enum KeyRole {
    Initial,
    Handshake,
    ZeroRtt,
    OneRtt,
    Retry,
}

/// A crypto suite: the static association from each abstract key role to
/// the concrete key type it uses, and from each role to its paired
/// header-protection key type.
pub trait CryptoSuite {
    type InitialKey;

    type InitialHeaderKey;

    type HandshakeKey;

    type HandshakeHeaderKey;

    type ZeroRttKey;

    type ZeroRttHeaderKey;

    type OneRttKey;

    type OneRttHeaderKey;

    type RetryKey;

    type RetryHeaderKey;
}

/// Key material for the initial encryption level.
pub struct InitialKey {
    pub material: Vec<u8>,
}

/// Header-protection key paired with the initial keys.
pub struct InitialHeaderKey {
    pub material: Vec<u8>,
}

/// Key material for the handshake encryption level.
pub struct HandshakeKey {
    pub material: Vec<u8>,
}

/// Header-protection key paired with the handshake keys.
pub struct HandshakeHeaderKey {
    pub material: Vec<u8>,
}

/// Key material for early (zero round-trip) application data.
pub struct ZeroRttKey {
    pub material: Vec<u8>,
}

/// Header-protection key paired with the zero round-trip keys.
pub struct ZeroRttHeaderKey {
    pub material: Vec<u8>,
}

/// Key material for one round-trip application data.
pub struct OneRttKey {
    pub material: Vec<u8>,
}

/// Header-protection key paired with the one round-trip keys.
pub struct OneRttHeaderKey {
    pub material: Vec<u8>,
}

/// Key material protecting retry packets.
pub struct RetryKey {
    pub material: Vec<u8>,
}

/// Header-protection key paired with the retry key.
pub struct RetryHeaderKey {
    pub material: Vec<u8>,
}

/// The suite this library supplies by default: each role is served by the
/// plain key-material types above.
pub struct DefaultSuite {}

impl CryptoSuite for DefaultSuite {
    type InitialKey = InitialKey;

    type InitialHeaderKey = InitialHeaderKey;

    type HandshakeKey = HandshakeKey;

    type HandshakeHeaderKey = HandshakeHeaderKey;

    type ZeroRttKey = ZeroRttKey;

    type ZeroRttHeaderKey = ZeroRttHeaderKey;

    type OneRttKey = OneRttKey;

    type OneRttHeaderKey = OneRttHeaderKey;

    type RetryKey = RetryKey;

    type RetryHeaderKey = RetryHeaderKey;
}

} // verus!
