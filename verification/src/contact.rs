//! Requests on contact objects.

use vstd::prelude::*;

pub mod check;
pub mod delete;
pub mod info;

verus! {

/// The namespace of contact objects.
pub const XMLNS: &'static str = "urn:ietf:params:xml:ns:contact-1.0";

} // verus!
