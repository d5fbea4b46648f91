//! The scoped callback adapter and the persistent handshake state it carries.
//!
//! The adapter is built fresh for every advance call, handed to the engine
//! for exactly one negotiate step, and torn apart again before the call
//! returns. Events the engine raises during that step land here: outbound
//! handshake bytes go to the send buffer, derived-key and peer
//! transport-parameter notifications go to the handshake state, and a
//! failure reported through an event handler is recorded in the error slot
//! so it can surface through the advance call's return path.

use vstd::prelude::*;
use bytes::BytesMut;
use crate::endpoint::Role;
use crate::error::CryptoError;
use crate::suite::KeyRole;

verus! {

/// The session's persistent handshake progress state, mutated only through
/// the callback adapter while a negotiate step is running.
pub struct HandshakeState {
    /// The peer's transport parameters, once the engine has delivered them.
    pub peer_params: Option<Vec<u8>>,
    /// The roles of the keys the engine has derived so far, in order.
    pub keys: Vec<KeyRole>,
}

impl HandshakeState {
    /// A fresh state: nothing received, no keys derived.
    pub fn new() -> (r: Self)
        ensures
            r.peer_params is None,
            r.keys@ == Seq::<KeyRole>::empty(),
    {
        HandshakeState { peer_params: None, keys: Vec::new() }
    }
}

/// The scoped callback adapter: lives for exactly one negotiate step. It
/// holds the endpoint's role, the session's handshake state and send buffer
/// for the duration of the step, and an error slot for failures the engine
/// reports through an event handler rather than through the negotiate
/// return value.
pub struct Callback {
    /// The endpoint role the session was created with.
    pub role: Role,
    /// The session's handshake state, held for the duration of the step.
    pub state: HandshakeState,
    /// The session's outbound-byte buffer, held for the duration of the step.
    pub send_buffer: BytesMut,
    /// Set when an event handler fails during the step; surfaces through the
    /// advance call's return path.
    pub err: Option<CryptoError>,
}

} // verus!
