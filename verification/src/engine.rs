//! The external handshake engine's connection-handle interface.
//!
//! The engine itself is an external collaborator; this module fixes the
//! interface the session relies on. A connection is created in a mode,
//! configured, and then driven one non-blocking negotiate step at a time.
//! Event handlers are attached immediately before each negotiate step and
//! detached immediately after it; the `attached` state and the recorded
//! call order make that discipline checkable: attaching twice without a
//! detach in between is ruled out, and negotiate is only possible while
//! attached.

use vstd::prelude::*;
use crate::buffer::bytes_view;
use crate::callback::Callback;
use crate::endpoint::Mode;
use crate::error::CryptoError;
use crate::suite::KeyRole;

verus! {

/// An opaque TLS configuration, modelled by what the adapter reads of it:
/// which endpoint modes it can serve.
#[derive(Clone, Copy, Debug, PartialEq, Eq, Structural)]
pub struct Config {
    pub supports_server: bool,
    pub supports_client: bool,
}

impl Config {
    /// Whether this configuration can serve a connection in the given mode.
    pub open spec fn spec_supports(&self, mode: Mode) -> bool {
        match mode {
            Mode::Server => self.supports_server,
            Mode::Client => self.supports_client,
        }
    }

    /// Whether this configuration can serve a connection in the given mode.
    pub fn supports(&self, mode: Mode) -> (r: bool)
        ensures
            r == self.spec_supports(mode),
    {
        match mode {
            Mode::Server => self.supports_server,
            Mode::Client => self.supports_client,
        }
    }
}

/// A failure reported by the external engine itself.
#[derive(Clone, Copy, Debug, PartialEq, Eq, Structural)]
pub struct EngineError {}

/// One call into the external engine, as recorded for ordering.
#[derive(Clone, Copy, Debug, PartialEq, Eq, Structural)]
pub enum EngineCall {
    Attach,
    Negotiate,
    Detach,
}

/// The outcome of one non-blocking negotiate step: not yet done, handshake
/// established, or failed with an optional TLS alert code.
#[derive(Clone, Copy, Debug, PartialEq, Eq)]
pub enum Outcome {
    Pending,
    Complete,
    Failed { alert: Option<u8> },
}

/// The connection-handle abstraction of the external handshake engine.
///
/// The spec functions describe the handle as the session sees it: the mode
/// it was created in, whether event handlers are currently attached, the
/// order of attach/negotiate/detach calls made so far, which setup inputs
/// the engine accepts, and what the next negotiate step will report and
/// deliver. An implementation decides all of these; the session's contracts
/// are stated, and proved, over them.
pub trait Connection: Sized {
    /// The mode this connection was created in.
    spec fn mode(&self) -> Mode;

    /// Whether event handlers are currently attached.
    spec fn attached(&self) -> bool;

    /// Every attach, negotiate and detach call made so far, in order.
    spec fn calls(&self) -> Seq<EngineCall>;

    /// Whether the engine accepts the configuration for a connection in the
    /// given mode.
    spec fn accepts_config(mode: Mode, config: Config) -> bool;

    /// Whether the engine supports carrying handshake bytes through the
    /// transport for connections in the given mode.
    spec fn accepts_quic(mode: Mode) -> bool;

    /// Whether the engine accepts the transport-parameters blob for
    /// connections in the given mode.
    spec fn accepts_params(mode: Mode, params: Seq<u8>) -> bool;

    /// Whether the engine lets connections in the given mode leave alert
    /// delivery to the transport.
    spec fn accepts_blinding(mode: Mode) -> bool;

    /// What the next negotiate step reports.
    spec fn outcome(&self) -> Outcome;

    /// The outbound handshake bytes the next negotiate step delivers.
    spec fn outbound(&self) -> Seq<u8>;

    /// The roles of the keys the next negotiate step derives, in order.
    spec fn delivered_keys(&self) -> Seq<KeyRole>;

    /// The peer transport parameters the next negotiate step delivers, if
    /// any.
    spec fn delivered_params(&self) -> Option<Seq<u8>>;

    /// The event-handler failure the next negotiate step records in the
    /// adapter's error slot, if any.
    spec fn callback_error(&self) -> Option<CryptoError>;

    /// Whether the next detach succeeds.
    spec fn detach_ok(&self) -> bool;

    /// Create a connection handle in the given mode, with no handlers
    /// attached and no calls recorded.
    fn create(mode: Mode) -> (r: Self)
        ensures
            r.mode() == mode,
            !r.attached(),
            r.calls() == Seq::<EngineCall>::empty(),
    ;

    /// Bind a TLS configuration to this connection.
    fn set_config(&mut self, config: &Config) -> (r: Result<(), EngineError>)
        requires
            !old(self).attached(),
        ensures
            r is Ok <==> Self::accepts_config(old(self).mode(), *config),
            final(self).mode() == old(self).mode(),
            !final(self).attached(),
            final(self).calls() == old(self).calls(),
    ;

    /// Enable the mode in which the transport, not the engine, carries the
    /// handshake bytes.
    fn enable_quic(&mut self) -> (r: Result<(), EngineError>)
        requires
            !old(self).attached(),
        ensures
            r is Ok <==> Self::accepts_quic(old(self).mode()),
            final(self).mode() == old(self).mode(),
            !final(self).attached(),
            final(self).calls() == old(self).calls(),
    ;

    /// Inject the local transport-parameters blob, to be delivered to the
    /// peer during negotiation.
    fn set_quic_transport_parameters(&mut self, params: &[u8]) -> (r: Result<(), EngineError>)
        requires
            !old(self).attached(),
        ensures
            r is Ok <==> Self::accepts_params(old(self).mode(), params@),
            final(self).mode() == old(self).mode(),
            !final(self).attached(),
            final(self).calls() == old(self).calls(),
    ;

    /// Disable the engine's own self-triggered alert delivery; the owning
    /// transport is responsible for alert timing.
    fn set_self_service_blinding(&mut self) -> (r: Result<(), EngineError>)
        requires
            !old(self).attached(),
        ensures
            r is Ok <==> Self::accepts_blinding(old(self).mode()),
            final(self).mode() == old(self).mode(),
            !final(self).attached(),
            final(self).calls() == old(self).calls(),
    ;

    /// Install the event handlers for one negotiate step. Must not be
    /// called while handlers are already attached, and leaves what the next
    /// negotiate step will report unchanged.
    fn attach(&mut self)
        requires
            !old(self).attached(),
        ensures
            final(self).attached(),
            final(self).mode() == old(self).mode(),
            final(self).calls() == old(self).calls().push(EngineCall::Attach),
            final(self).outcome() == old(self).outcome(),
            final(self).outbound() == old(self).outbound(),
            final(self).delivered_keys() == old(self).delivered_keys(),
            final(self).delivered_params() == old(self).delivered_params(),
            final(self).callback_error() == old(self).callback_error(),
            final(self).detach_ok() == old(self).detach_ok(),
    ;

    /// One non-blocking negotiate step. Requires handlers to be attached;
    /// every event the engine raises during the step lands in the adapter:
    /// outbound bytes are appended to its send buffer, derived-key roles and
    /// peer transport parameters are recorded in its state, and an
    /// event-handler failure is recorded in its error slot.
    fn negotiate(&mut self, adapter: &mut Callback) -> (r: Outcome)
        requires
            old(self).attached(),
            old(adapter).err is None,
        ensures
            r == old(self).outcome(),
            final(self).attached(),
            final(self).mode() == old(self).mode(),
            final(self).calls() == old(self).calls().push(EngineCall::Negotiate),
            final(self).detach_ok() == old(self).detach_ok(),
            final(adapter).role == old(adapter).role,
            bytes_view(final(adapter).send_buffer) == bytes_view(old(adapter).send_buffer)
                + old(self).outbound(),
            final(adapter).state.keys@ == old(adapter).state.keys@ + old(self).delivered_keys(),
            old(self).delivered_params() matches Some(p) ==> (final(adapter).state.peer_params matches Some(v)
                && v@ == p),
            old(self).delivered_params() is None ==> final(adapter).state.peer_params
                == old(adapter).state.peer_params,
            final(adapter).err == old(self).callback_error(),
    ;

    /// Remove the event handlers installed by `attach`. Always leaves the
    /// connection detached; reports an error when the handlers could not be
    /// cleanly unregistered.
    fn detach(&mut self) -> (r: Result<(), EngineError>)
        requires
            old(self).attached(),
        ensures
            r is Ok <==> old(self).detach_ok(),
            !final(self).attached(),
            final(self).mode() == old(self).mode(),
            final(self).calls() == old(self).calls().push(EngineCall::Detach),
    ;
}

} // verus!
