//! A client library for the Extensible Provisioning Protocol (RFC 5730-5734).
//!
//! The crate holds the protocol logic of an EPP session: the length-prefixed
//! frame codec, the XML command envelope with its typed requests, responses
//! and extensions, and the session state machine. Everything here works on
//! plain values; the byte stream itself is driven by the caller.

pub mod canon;
pub mod client;
pub mod common;
pub mod contact;
pub mod domain;
pub mod extensions;
pub mod fields;
pub mod frame;
pub mod greeting;
pub mod host;
pub mod login;
pub mod logout;
pub mod message;
pub mod query;
pub mod reader;
pub mod request;
pub mod response;
pub mod text;
pub mod xml;
