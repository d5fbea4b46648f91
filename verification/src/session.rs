//! The handshake session: owns the engine connection and drives it one
//! non-blocking negotiate step at a time.
//!
//! Every advance call builds a fresh callback adapter, attaches it to the
//! connection, runs exactly one negotiate step, detaches unconditionally,
//! and interprets the outcome. Completion is signaled to the caller's
//! context exactly once over the session's lifetime.

use vstd::prelude::*;
use bytes::BytesMut;
use crate::buffer::bytes_as_slice;
use crate::buffer::bytes_new;
use crate::buffer::bytes_view;
use crate::callback::Callback;
use crate::callback::HandshakeState;
use crate::endpoint::mode_of;
use crate::endpoint::spec_mode_of;
use crate::endpoint::Role;
use crate::engine::Config;
use crate::engine::Connection;
use crate::engine::EngineCall;
use crate::engine::Outcome;
use crate::error::spec_translate_alert;
use crate::error::translate_alert;
use crate::error::CryptoError;
use crate::error::Error;
use crate::suite::CryptoSuite;
use crate::suite::DefaultSuite;

verus! {

/// Placeholder capability for deferred configuration resolution. A session
/// can hold one, but the current control flow never consults it; it is an
/// extension point for selecting or validating configuration before a
/// negotiate step proceeds.
#[derive(Clone, Copy, Debug, PartialEq, Eq, Structural)]
pub struct ConfigResolver {}

/// What one advance call reports to the transport: no progress yet (retry
/// later), a successful step with the handshake established, or a terminal
/// failure.
#[derive(Clone, Copy, Debug, PartialEq, Eq, Structural)]
pub enum Progress {
    Pending,
    Complete,
    Failed(Error),
}

/// The polling context the transport hands to each advance call: the
/// capability to be told, exactly once, that the handshake has completed.
pub trait HandshakeContext {
    /// How many times the handshake-complete notification has been invoked
    /// on this context.
    spec fn completions(&self) -> nat;

    /// Signal that the handshake has completed.
    fn on_handshake_complete(&mut self)
        ensures
            final(self).completions() == old(self).completions() + 1,
    ;
}

/// What one advance call returns, as a function of what the engine reported:
/// a failed detach is a hard error; a failure recorded in the adapter's
/// error slot surfaces next; otherwise the negotiate outcome decides, with
/// alerts translated into cryptographic errors.
pub open spec fn spec_poll_result(
    outcome: Outcome,
    handler_err: Option<CryptoError>,
    detach_ok: bool,
) -> Progress {
    if !detach_ok {
        Progress::Failed(Error::Detachment)
    } else {
        match handler_err {
            Some(e) => Progress::Failed(Error::Handshake(e)),
            None => match outcome {
                Outcome::Pending => Progress::Pending,
                Outcome::Complete => Progress::Complete,
                Outcome::Failed { alert } => Progress::Failed(
                    Error::Handshake(spec_translate_alert(alert)),
                ),
            },
        }
    }
}

/// One handshake's lifetime: the endpoint role, the engine's connection
/// handle, the persistent handshake state, the once-only completion flag,
/// the accumulation buffer for outbound handshake bytes, and the inert
/// configuration-resolution hook.
pub struct Session<C: Connection> {
    /// The endpoint role, fixed at construction.
    pub endpoint: Role,
    /// The external engine's per-handshake handle, exclusively owned.
    pub connection: C,
    /// Handshake progress state, mutated only through the callback adapter
    /// while a negotiate step is running.
    pub state: HandshakeState,
    /// Whether the handshake-complete notification has been emitted. Set
    /// exactly once, never reset.
    pub handshake_complete: bool,
    /// Outbound handshake bytes accumulated for the transport to send.
    pub send_buffer: BytesMut,
    /// Optional capability for deferred configuration resolution; held but
    /// not consulted by the current control flow.
    pub config_resolver: Option<ConfigResolver>,
}

impl<C: Connection> Session<C> {
    /// A session is well formed between advance calls: no event handlers
    /// are attached, and the connection runs in the mode that matches the
    /// session's role.
    pub open spec fn wf(&self) -> bool {
        &&& !self.connection.attached()
        &&& self.connection.mode() == spec_mode_of(self.endpoint)
    }

    /// Construct a session: create the engine connection in the mode
    /// matching the role, bind the configuration, enable transport-carried
    /// handshake bytes, inject the local transport parameters, and leave
    /// alert delivery to the transport. Succeeds exactly when the engine
    /// accepts every setup step; any rejected step is a construction error.
    pub fn new(
        endpoint: Role,
        config: Config,
        params: &[u8],
        config_resolver: Option<ConfigResolver>,
    ) -> (r: Result<Self, Error>)
        ensures
            r is Ok <==> {
                &&& C::accepts_config(spec_mode_of(endpoint), config)
                &&& C::accepts_quic(spec_mode_of(endpoint))
                &&& C::accepts_params(spec_mode_of(endpoint), params@)
                &&& C::accepts_blinding(spec_mode_of(endpoint))
            },
            r matches Err(e) ==> e is Construction,
            r matches Ok(s) ==> {
                &&& s.wf()
                &&& s.endpoint == endpoint
                &&& s.connection.calls() == Seq::<EngineCall>::empty()
                &&& !s.handshake_complete
                &&& s.state.peer_params is None
                &&& s.state.keys@ == Seq::<crate::suite::KeyRole>::empty()
                &&& bytes_view(s.send_buffer) == Seq::<u8>::empty()
                &&& s.config_resolver == config_resolver
            },
    {
        let mode = mode_of(endpoint);
        let mut connection = C::create(mode);
        match connection.set_config(&config) {
            Ok(()) => (),
            Err(_) => {
                return Err(Error::Construction);
            },
        }
        match connection.enable_quic() {
            Ok(()) => (),
            Err(_) => {
                return Err(Error::Construction);
            },
        }
        match connection.set_quic_transport_parameters(params) {
            Ok(()) => (),
            Err(_) => {
                return Err(Error::Construction);
            },
        }
        match connection.set_self_service_blinding() {
            Ok(()) => (),
            Err(_) => {
                return Err(Error::Construction);
            },
        }
        Ok(
            Session {
                endpoint,
                connection,
                state: HandshakeState::new(),
                handshake_complete: false,
                send_buffer: bytes_new(),
                config_resolver,
            },
        )
    }

    /// One non-blocking attempt to make handshake progress.
    ///
    /// A fresh callback adapter takes the session's state and send buffer,
    /// handlers are attached, one negotiate step runs, and handlers are
    /// detached again on every path before the outcome is interpreted. A
    /// detach failure is a hard error even after a successful negotiate; a
    /// failure recorded in the adapter's error slot surfaces next; otherwise
    /// the negotiate outcome decides. The first successful step invokes the
    /// context's completion notification and sets the completion flag;
    /// later successful steps return `Complete` without notifying again.
    pub fn poll<Ctx: HandshakeContext>(&mut self, context: &mut Ctx) -> (r: Progress)
        requires
            old(self).wf(),
        ensures
            final(self).wf(),
            final(self).endpoint == old(self).endpoint,
            final(self).config_resolver == old(self).config_resolver,
            r == spec_poll_result(
                old(self).connection.outcome(),
                old(self).connection.callback_error(),
                old(self).connection.detach_ok(),
            ),
            final(self).connection.calls() == old(self).connection.calls().push(
                EngineCall::Attach,
            ).push(EngineCall::Negotiate).push(EngineCall::Detach),
            final(self).handshake_complete == (old(self).handshake_complete
                || r is Complete),
            r is Complete && !old(self).handshake_complete ==> final(context).completions()
                == old(context).completions() + 1,
            !(r is Complete && !old(self).handshake_complete) ==> final(context).completions()
                == old(context).completions(),
            completion_step(
                old(self).handshake_complete,
                final(self).handshake_complete,
                final(context).completions() != old(context).completions(),
            ),
            bytes_view(final(self).send_buffer) == bytes_view(old(self).send_buffer)
                + old(self).connection.outbound(),
            final(self).state.keys@ == old(self).state.keys@
                + old(self).connection.delivered_keys(),
            old(self).connection.delivered_params() matches Some(p) ==> (final(self).state.peer_params matches Some(v)
                && v@ == p),
            old(self).connection.delivered_params() is None ==> final(self).state.peer_params
                == old(self).state.peer_params,
    {
        let mut cb = Callback {
            role: self.endpoint,
            state: HandshakeState::new(),
            send_buffer: bytes_new(),
            err: None,
        };
        core::mem::swap(&mut cb.state, &mut self.state);
        core::mem::swap(&mut cb.send_buffer, &mut self.send_buffer);

        self.connection.attach();
        let outcome = self.connection.negotiate(&mut cb);
        let detach_result = self.connection.detach();

        core::mem::swap(&mut cb.state, &mut self.state);
        core::mem::swap(&mut cb.send_buffer, &mut self.send_buffer);
        let handler_err = cb.err;

        if detach_result.is_err() {
            return Progress::Failed(Error::Detachment);
        }
        match handler_err {
            Some(e) => {
                return Progress::Failed(Error::Handshake(e));
            },
            None => (),
        }
        match outcome {
            Outcome::Pending => Progress::Pending,
            Outcome::Complete => {
                if !self.handshake_complete {
                    context.on_handshake_complete();
                    self.handshake_complete = true;
                }
                Progress::Complete
            },
            Outcome::Failed { alert } => Progress::Failed(
                Error::Handshake(translate_alert(alert)),
            ),
        }
    }

    /// The outbound handshake bytes accumulated so far.
    pub fn outbound_bytes(&self) -> (r: &[u8])
        ensures
            r@ == bytes_view(self.send_buffer),
    {
        bytes_as_slice(&self.send_buffer)
    }
}

/// A session presents the key-role mapping of the suite this library
/// supplies: each abstract role, and its paired header-protection key,
/// resolves to that suite's concrete type.
impl<C: Connection> CryptoSuite for Session<C> {
    type InitialKey = <DefaultSuite as CryptoSuite>::InitialKey;

    type InitialHeaderKey = <DefaultSuite as CryptoSuite>::InitialHeaderKey;

    type HandshakeKey = <DefaultSuite as CryptoSuite>::HandshakeKey;

    type HandshakeHeaderKey = <DefaultSuite as CryptoSuite>::HandshakeHeaderKey;

    type ZeroRttKey = <DefaultSuite as CryptoSuite>::ZeroRttKey;

    type ZeroRttHeaderKey = <DefaultSuite as CryptoSuite>::ZeroRttHeaderKey;

    type OneRttKey = <DefaultSuite as CryptoSuite>::OneRttKey;

    type OneRttHeaderKey = <DefaultSuite as CryptoSuite>::OneRttHeaderKey;

    type RetryKey = <DefaultSuite as CryptoSuite>::RetryKey;

    type RetryHeaderKey = <DefaultSuite as CryptoSuite>::RetryHeaderKey;
}

/// The effect of one advance call on the completion flag: the flag is set
/// exactly by the calls that fire the notification, and a call can fire
/// only while the flag is still clear.
pub open spec fn completion_step(before: bool, after: bool, fired: bool) -> bool {
    &&& after == (before || fired)
    &&& fired ==> !before
}

/// One advance call's effect on the completion flag, as recorded for the
/// exactly-once law: the flag before and after the call, and whether the
/// call fired the completion notification.
pub struct CompletionRecord {
    pub before: bool,
    pub after: bool,
    pub fired: bool,
}

/// A chained trace of advance effects: each step obeys `completion_step`
/// and starts with the flag its predecessor left behind.
pub open spec fn chained(tr: Seq<CompletionRecord>) -> bool {
    &&& forall|i: int| #![trigger tr[i]]
        0 <= i < tr.len() ==> completion_step(tr[i].before, tr[i].after, tr[i].fired)
    &&& forall|i: int| #![trigger tr[i]]
        0 < i < tr.len() ==> tr[i].before == tr[i - 1].after
}

/// How many steps of a trace fired the completion notification.
pub open spec fn fired_count(tr: Seq<CompletionRecord>) -> int
    decreases tr.len(),
{
    if tr.len() == 0 {
        0
    } else {
        fired_count(tr.drop_last()) + if tr.last().fired {
            1int
        } else {
            0int
        }
    }
}

/// LAW: over any chained trace of advance calls that starts with the
/// completion flag clear, the handshake-complete notification fires at most
/// once, and it has fired exactly once precisely when the flag ends up set —
/// however many further advance calls follow the successful one.
pub proof fn lemma_completion_fires_exactly_once(tr: Seq<CompletionRecord>)
    requires
        tr.len() > 0,
        tr[0].before == false,
        chained(tr),
    ensures
        0 <= fired_count(tr) <= 1,
        fired_count(tr) == 1 <==> tr.last().after,
    decreases tr.len(),
{
    if tr.len() == 1 {
        assert(completion_step(tr[0int].before, tr[0int].after, tr[0int].fired));
        assert(fired_count(tr.drop_last()) == 0);
    } else {
        let prefix = tr.drop_last();
        assert(prefix.len() == tr.len() - 1);
        assert(chained(prefix)) by {
            assert forall|i: int|
                0 <= i < prefix.len() implies #[trigger] completion_step(
                prefix[i].before,
                prefix[i].after,
                prefix[i].fired,
            ) by {
                assert(prefix[i] == tr[i]);
                assert(completion_step(tr[i].before, tr[i].after, tr[i].fired));
            }
            assert forall|i: int| 0 < i < prefix.len() implies prefix[i].before == prefix[i
                - 1].after by {
                assert(prefix[i] == tr[i]);
                assert(prefix[i - 1] == tr[i - 1]);
            }
        }
        assert(prefix[0] == tr[0]);
        lemma_completion_fires_exactly_once(prefix);
        let last = tr.last();
        assert(last.before == tr[tr.len() - 2].after);
        assert(tr[tr.len() - 2] == prefix.last());
        assert(completion_step(last.before, last.after, last.fired));
    }
}

} // verus!
