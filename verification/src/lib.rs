//! Swap payloads of a shielded exchange: the fixed-width byte layout of a swap,
//! and the two-layer encryption that lets both the receiver and the sender
//! recover it.

pub mod aead;
pub mod asset;
pub mod convert;
pub mod field;
pub mod group;
pub mod ka;
pub mod kdf;
pub mod keys;
pub mod laws;
pub mod octets;
pub mod proto;
pub mod swap;
pub mod transaction;
