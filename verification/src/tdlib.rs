//! The session-based chat backend: correlation of requests and responses,
//! the authorization handshake, identifier resolution and the mapping of
//! payloads onto the crate's records.

pub mod adapter;
pub mod auth;
pub mod client;
pub mod parse;
pub mod resolve;
