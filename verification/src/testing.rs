//! A fake external engine and polling context.
//!
//! The fake connection records the order of attach, negotiate and detach
//! calls and can be primed, between advance calls, with what the next
//! negotiate step reports and delivers. The fake context counts completion
//! notifications. Both satisfy the same contracts the session relies on,
//! so they stand in for the external collaborators wherever a session is
//! exercised.

use vstd::prelude::*;
use crate::buffer::bytes_extend;
use crate::buffer::bytes_view;
use crate::callback::Callback;
use crate::endpoint::Mode;
use crate::engine::Config;
use crate::engine::Connection;
use crate::engine::EngineCall;
use crate::engine::EngineError;
use crate::engine::Outcome;
use crate::error::CryptoError;
use crate::session::HandshakeContext;
use crate::suite::KeyRole;

verus! {

/// Copy a byte vector.
fn copy_bytes(src: &Vec<u8>) -> (r: Vec<u8>)
    ensures
        r@ == src@,
{
    let mut r: Vec<u8> = Vec::new();
    let mut i: usize = 0;
    while i < src.len()
        invariant
            i <= src@.len(),
            r@ == src@.take(i as int),
        decreases src@.len() - i,
    {
        r.push(src[i]);
        assert(src@.take(i as int + 1) =~= src@.take(i as int).push(src@[i as int]));
        i = i + 1;
    }
    assert(src@.take(src@.len() as int) =~= src@);
    r
}

/// A fake engine connection. The `primed_` fields decide what the next
/// negotiate step reports and delivers, and whether the next detach
/// succeeds; the log records every attach, negotiate and detach in order.
pub struct TestConnection {
    /// The mode the connection was created in.
    pub created_mode: Mode,
    /// Whether event handlers are currently attached.
    pub is_attached: bool,
    /// Every attach, negotiate and detach call made so far, in order.
    pub log: Vec<EngineCall>,
    /// What the next negotiate step reports.
    pub primed_outcome: Outcome,
    /// The outbound handshake bytes the next negotiate step delivers.
    pub primed_outbound: Vec<u8>,
    /// The roles of the keys the next negotiate step derives.
    pub primed_keys: Vec<KeyRole>,
    /// The peer transport parameters the next negotiate step delivers.
    pub primed_params: Option<Vec<u8>>,
    /// The event-handler failure the next negotiate step records.
    pub primed_callback_error: Option<CryptoError>,
    /// Whether the next detach succeeds.
    pub primed_detach_ok: bool,
}

impl Connection for TestConnection {
    open spec fn mode(&self) -> Mode {
        self.created_mode
    }

    open spec fn attached(&self) -> bool {
        self.is_attached
    }

    open spec fn calls(&self) -> Seq<EngineCall> {
        self.log@
    }

    open spec fn accepts_config(mode: Mode, config: Config) -> bool {
        config.spec_supports(mode)
    }

    open spec fn accepts_quic(mode: Mode) -> bool {
        true
    }

    open spec fn accepts_params(mode: Mode, params: Seq<u8>) -> bool {
        true
    }

    open spec fn accepts_blinding(mode: Mode) -> bool {
        true
    }

    open spec fn outcome(&self) -> Outcome {
        self.primed_outcome
    }

    open spec fn outbound(&self) -> Seq<u8> {
        self.primed_outbound@
    }

    open spec fn delivered_keys(&self) -> Seq<KeyRole> {
        self.primed_keys@
    }

    open spec fn delivered_params(&self) -> Option<Seq<u8>> {
        match self.primed_params {
            Some(v) => Some(v@),
            None => None,
        }
    }

    open spec fn callback_error(&self) -> Option<CryptoError> {
        self.primed_callback_error
    }

    open spec fn detach_ok(&self) -> bool {
        self.primed_detach_ok
    }

    fn create(mode: Mode) -> (r: Self) {
        TestConnection {
            created_mode: mode,
            is_attached: false,
            log: Vec::new(),
            primed_outcome: Outcome::Pending,
            primed_outbound: Vec::new(),
            primed_keys: Vec::new(),
            primed_params: None,
            primed_callback_error: None,
            primed_detach_ok: true,
        }
    }

    fn set_config(&mut self, config: &Config) -> (r: Result<(), EngineError>) {
        if config.supports(self.created_mode) {
            Ok(())
        } else {
            Err(EngineError {})
        }
    }

    fn enable_quic(&mut self) -> (r: Result<(), EngineError>) {
        Ok(())
    }

    fn set_quic_transport_parameters(&mut self, params: &[u8]) -> (r: Result<(), EngineError>) {
        Ok(())
    }

    fn set_self_service_blinding(&mut self) -> (r: Result<(), EngineError>) {
        Ok(())
    }

    fn attach(&mut self) {
        self.is_attached = true;
        self.log.push(EngineCall::Attach);
    }

    fn negotiate(&mut self, adapter: &mut Callback) -> (r: Outcome) {
        self.log.push(EngineCall::Negotiate);
        bytes_extend(&mut adapter.send_buffer, self.primed_outbound.as_slice());
        let mut i: usize = 0;
        while i < self.primed_keys.len()
            invariant
                i <= self.primed_keys@.len(),
                self.primed_keys@ == old(self).primed_keys@,
                adapter.state.keys@ == old(adapter).state.keys@ + self.primed_keys@.take(
                    i as int,
                ),
                adapter.state.peer_params == old(adapter).state.peer_params,
                adapter.role == old(adapter).role,
                adapter.err == old(adapter).err,
                bytes_view(adapter.send_buffer) == bytes_view(old(adapter).send_buffer) + old(
                    self,
                ).primed_outbound@,
                self.created_mode == old(self).created_mode,
                self.is_attached == old(self).is_attached,
                self.log@ == old(self).log@.push(EngineCall::Negotiate),
                self.primed_outcome == old(self).primed_outcome,
                self.primed_outbound@ == old(self).primed_outbound@,
                self.primed_params == old(self).primed_params,
                self.primed_callback_error == old(self).primed_callback_error,
                self.primed_detach_ok == old(self).primed_detach_ok,
            decreases self.primed_keys@.len() - i,
        {
            let k = self.primed_keys[i];
            adapter.state.keys.push(k);
            assert(self.primed_keys@.take(i as int + 1) =~= self.primed_keys@.take(
                i as int,
            ).push(self.primed_keys@[i as int]));
            i = i + 1;
        }
        assert(self.primed_keys@.take(self.primed_keys@.len() as int) =~= self.primed_keys@);
        match &self.primed_params {
            Some(p) => {
                let delivered = copy_bytes(p);
                adapter.state.peer_params = Some(delivered);
            },
            None => (),
        }
        adapter.err = self.primed_callback_error;
        self.primed_outcome
    }

    fn detach(&mut self) -> (r: Result<(), EngineError>) {
        self.is_attached = false;
        self.log.push(EngineCall::Detach);
        if self.primed_detach_ok {
            Ok(())
        } else {
            Err(EngineError {})
        }
    }
}

/// A fake polling context: remembers one entry per completion notification
/// it has received.
pub struct TestContext {
    /// One entry per completion notification, in order of receipt.
    pub notifications: Vec<bool>,
}

impl TestContext {
    /// A fresh context that has received no notification.
    pub fn new() -> (r: Self)
        ensures
            r.completions() == 0,
    {
        TestContext { notifications: Vec::new() }
    }
}

impl HandshakeContext for TestContext {
    open spec fn completions(&self) -> nat {
        self.notifications@.len()
    }

    fn on_handshake_complete(&mut self) {
        self.notifications.push(true);
    }
}

} // verus!
