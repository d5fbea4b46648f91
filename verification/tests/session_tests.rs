use quic_tls_session::endpoint::mode_of;
use quic_tls_session::endpoint::Mode;
use quic_tls_session::endpoint::Role;
use quic_tls_session::engine::Config;
use quic_tls_session::engine::EngineCall;
use quic_tls_session::engine::Outcome;
use quic_tls_session::error::CryptoError;
use quic_tls_session::error::Error;
use quic_tls_session::session::Progress;
use quic_tls_session::session::Session;
use quic_tls_session::suite::KeyRole;
use quic_tls_session::testing::TestConnection;
use quic_tls_session::testing::TestContext;

fn open_config() -> Config {
    Config { supports_server: true, supports_client: true }
}

fn server_session() -> Session<TestConnection> {
    Session::new(Role::Server, open_config(), b"\x01\x02", None).unwrap()
}

fn client_session() -> Session<TestConnection> {
    Session::new(Role::Client, open_config(), b"\x01\x02", None).unwrap()
}

#[test]
fn roles_map_to_matching_modes() {
    assert_eq!(mode_of(Role::Server), Mode::Server);
    assert_eq!(mode_of(Role::Client), Mode::Client);
}

#[test]
fn config_supports_is_read_per_mode() {
    let config = Config { supports_server: true, supports_client: false };
    assert!(config.supports(Mode::Server));
    assert!(!config.supports(Mode::Client));
}

#[test]
fn construction_rejects_incompatible_pairing() {
    let server_only = Config { supports_server: true, supports_client: false };
    let r: Result<Session<TestConnection>, Error> =
        Session::new(Role::Client, server_only, b"\x01\x02", None);
    assert!(matches!(r, Err(Error::Construction)));
    let client_only = Config { supports_server: false, supports_client: true };
    let r: Result<Session<TestConnection>, Error> =
        Session::new(Role::Server, client_only, b"\x01\x02", None);
    assert!(matches!(r, Err(Error::Construction)));
}

#[test]
fn construction_accepts_compatible_pairing() {
    let session = server_session();
    assert_eq!(session.endpoint, Role::Server);
    assert!(!session.handshake_complete);
    assert!(session.outbound_bytes().is_empty());
    assert!(session.connection.log.is_empty());
}

#[test]
fn server_completion_notifies_exactly_once() {
    let mut session = server_session();
    let mut context = TestContext::new();

    let first = session.poll(&mut context);
    assert_eq!(first, Progress::Pending);
    assert_eq!(context.notifications.len(), 0);
    assert!(!session.handshake_complete);

    session.connection.primed_outcome = Outcome::Complete;
    let second = session.poll(&mut context);
    assert_eq!(second, Progress::Complete);
    assert_eq!(context.notifications.len(), 1);
    assert!(session.handshake_complete);

    let third = session.poll(&mut context);
    assert_eq!(third, Progress::Complete);
    assert_eq!(context.notifications.len(), 1);
    assert!(session.handshake_complete);
}

#[test]
fn client_failure_carries_alert_code() {
    let mut session = client_session();
    let mut context = TestContext::new();
    session.connection.primed_outcome = Outcome::Failed { alert: Some(40) };
    let r = session.poll(&mut context);
    assert_eq!(r, Progress::Failed(Error::Handshake(CryptoError { code: 40 })));
    assert_eq!(context.notifications.len(), 0);
}

#[test]
fn failure_without_alert_is_generic() {
    let mut session = client_session();
    let mut context = TestContext::new();
    session.connection.primed_outcome = Outcome::Failed { alert: None };
    let r = session.poll(&mut context);
    assert_eq!(r, Progress::Failed(Error::Handshake(CryptoError { code: 40 })));
}

#[test]
fn detach_failure_is_a_hard_error() {
    let mut session = server_session();
    let mut context = TestContext::new();
    session.connection.primed_outcome = Outcome::Complete;
    session.connection.primed_detach_ok = false;
    let r = session.poll(&mut context);
    assert_eq!(r, Progress::Failed(Error::Detachment));
    assert_eq!(context.notifications.len(), 0);
    assert!(!session.handshake_complete);
    // the detach call itself still happened, after negotiate
    assert_eq!(
        session.connection.log,
        vec![EngineCall::Attach, EngineCall::Negotiate, EngineCall::Detach]
    );
}

#[test]
fn every_poll_attaches_then_negotiates_then_detaches() {
    let mut session = server_session();
    let mut context = TestContext::new();
    session.poll(&mut context);
    assert_eq!(
        session.connection.log,
        vec![EngineCall::Attach, EngineCall::Negotiate, EngineCall::Detach]
    );
    session.connection.primed_outcome = Outcome::Failed { alert: None };
    session.poll(&mut context);
    assert_eq!(
        session.connection.log,
        vec![
            EngineCall::Attach,
            EngineCall::Negotiate,
            EngineCall::Detach,
            EngineCall::Attach,
            EngineCall::Negotiate,
            EngineCall::Detach,
        ]
    );
}

#[test]
fn outbound_bytes_accumulate_across_polls() {
    let mut session = server_session();
    let mut context = TestContext::new();
    session.connection.primed_outbound = b"hello".to_vec();
    session.poll(&mut context);
    assert_eq!(session.outbound_bytes(), b"hello");
    session.connection.primed_outbound = b" again".to_vec();
    session.poll(&mut context);
    assert_eq!(session.outbound_bytes(), b"hello again");
    // the buffer itself is a bytes::BytesMut holding the same contents
    assert_eq!(&session.send_buffer[..], b"hello again");
}

#[test]
fn handler_failure_in_error_slot_surfaces() {
    let mut session = server_session();
    let mut context = TestContext::new();
    session.connection.primed_outcome = Outcome::Complete;
    session.connection.primed_callback_error = Some(CryptoError { code: 42 });
    let r = session.poll(&mut context);
    assert_eq!(r, Progress::Failed(Error::Handshake(CryptoError { code: 42 })));
    assert_eq!(context.notifications.len(), 0);
    assert!(!session.handshake_complete);
}

#[test]
fn delivered_keys_and_params_land_in_state() {
    let mut session = server_session();
    let mut context = TestContext::new();
    session.connection.primed_keys = vec![KeyRole::Initial, KeyRole::Handshake];
    session.connection.primed_params = Some(b"\x0a\x0b".to_vec());
    session.poll(&mut context);
    assert_eq!(session.state.keys, vec![KeyRole::Initial, KeyRole::Handshake]);
    assert_eq!(session.state.peer_params.as_deref(), Some(&b"\x0a\x0b"[..]));
    session.connection.primed_keys = vec![KeyRole::OneRtt];
    session.poll(&mut context);
    assert_eq!(
        session.state.keys,
        vec![KeyRole::Initial, KeyRole::Handshake, KeyRole::OneRtt]
    );
}
