[package]
name = "peer_bootstrap"
version = "0.1.0"
edition = "2021"
publish = false

[dependencies]
futures = "=0.3.34"
quinn = "=0.6.2"
rustls = { version = "=0.17.0", features = ["dangerous_configuration", "quic"] }
webpki = "=0.21.4"

[dev-dependencies]
quinn-proto = "=0.6.1"
rcgen = "=0.8.14"
