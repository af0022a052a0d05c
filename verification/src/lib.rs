//! Verified helpers for working with durable transaction nonces on an
//! in-process Solana VM.
//!
//! The library models instructions and nonce-account state as plain values,
//! proves the encoding and decoding logic over those models, and keeps the
//! calls into `litesvm` and `solana_sdk` behind small trusted wrappers.

pub mod bytes;
pub mod instruction;
pub mod nonce;
pub mod signing;
