//! Extensions of the protocol.

pub mod consolidate;
pub mod namestore;
pub mod rgp;
