[package]
name = "quic_tls_session"
version = "0.1.0"
edition = "2021"
publish = false

[dependencies]
bytes = "=1.12.1"
s2n-quic-core = "=0.90.0"
s2n-tls = { version = "=0.3.45", features = ["quic"] }
