//! Requests on host objects.

use vstd::prelude::*;

pub mod check;
pub mod create;
pub mod delete;

verus! {

/// The namespace of host objects.
pub const XMLNS: &'static str = "urn:ietf:params:xml:ns:host-1.0";

} // verus!
