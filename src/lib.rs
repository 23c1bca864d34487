//! An authenticated, encrypted point-to-point channel: an X25519 key
//! primitive, a fixed three-message Noise handshake with a pre-shared key,
//! a transport cipher with strict per-direction nonces, length-delimited
//! framing, and a small echo protocol that runs over the channel.

pub mod frame;
pub mod echo;
pub mod error;
pub mod dh;
pub mod noise;
pub mod handshake;
pub mod transport;
pub mod channel;
pub mod session;
pub mod rpc;
