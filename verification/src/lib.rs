//! Bootstrap layer for secure, multiplexed peer-to-peer connections.
//!
//! Given socket addresses and certificate material, the crate decides how an
//! endpoint is configured: which transport tuning it carries, which trust
//! policy judges a peer's certificate, which identity a listener presents,
//! how a failed bind or a failed connection attempt is reported, and how a
//! receive stream is read. The protocol engine itself (handshake,
//! encryption, retransmission) is `quinn` with `rustls`; the library calls
//! it, through the functions of `engine`, where a decision is the engine's
//! to make.

pub mod connection;
pub mod endpoint;
pub mod engine;
pub mod peer_config;
pub mod stream;
pub mod transport;
pub mod trust;
