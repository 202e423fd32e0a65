//! Requests on domain objects.

use vstd::prelude::*;

pub mod check;
pub mod delete;
pub mod transfer;
pub mod update;

verus! {

/// The namespace of domain objects.
pub const XMLNS: &'static str = "urn:ietf:params:xml:ns:domain-1.0";

} // verus!
