//! Core of a consensus node: the store of finalized blocks and the handshake
//! that authenticates a validator connection.
pub mod block;
pub mod block_store;
pub mod bytes;
pub mod crypto;
pub mod handshake;
pub mod topology;
pub mod trace;
