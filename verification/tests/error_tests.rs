use quic_tls_session::error::translate_alert;
use quic_tls_session::error::CryptoError;
use quic_tls_session::error::Error;
use quic_tls_session::error::HANDSHAKE_FAILURE_ALERT;

#[test]
fn translate_alert_carries_code() {
    assert_eq!(translate_alert(Some(40)), CryptoError { code: 40 });
    assert_eq!(translate_alert(Some(0)), CryptoError { code: 0 });
    assert_eq!(translate_alert(Some(255)), CryptoError { code: 255 });
}

#[test]
fn translate_alert_is_deterministic() {
    let first = translate_alert(Some(70));
    let second = translate_alert(Some(70));
    assert_eq!(first, second);
    let first = translate_alert(None);
    let second = translate_alert(None);
    assert_eq!(first, second);
}

#[test]
fn translate_no_alert_is_generic_handshake_failure() {
    assert_eq!(translate_alert(None), CryptoError { code: HANDSHAKE_FAILURE_ALERT });
    assert_eq!(HANDSHAKE_FAILURE_ALERT, 40);
}

#[test]
fn transport_wrapping_offsets_alerts_into_crypto_range() {
    let e = Error::Handshake(CryptoError { code: 40 });
    assert_eq!(e.to_transport().code, 0x128);
    let e = Error::Handshake(CryptoError { code: 0 });
    assert_eq!(e.to_transport().code, 0x100);
}

#[test]
fn transport_wrapping_of_non_crypto_errors() {
    assert_eq!(Error::Detachment.to_transport().code, 0x1);
    assert_eq!(Error::Construction.to_transport().code, 0x1);
}
