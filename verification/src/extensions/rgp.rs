//! The registry grace period extension.

use vstd::prelude::*;

pub mod request;

verus! {

/// The namespace of the registry grace period extension.
pub const XMLNS: &'static str = "urn:ietf:params:xml:ns:rgp-1.0";

} // verus!
