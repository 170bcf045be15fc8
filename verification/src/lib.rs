//! A unified messaging core: one request/response abstraction over several
//! backends, with the correlation engine, the authorization state machine and
//! the entity resolution cache of the session-based chat backend.

pub mod discord;
pub mod entities;
pub mod error;
pub mod format;
pub mod gmail;
pub mod http;
pub mod json;
pub mod rpc;
pub mod service;
pub mod slack;
pub mod tdlib;
pub mod text;
pub mod tools;
pub mod whatsapp;
