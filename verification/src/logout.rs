//! The `logout` command.

use crate::common::{NoExtension, ToXml};
use crate::request::Transaction;
use crate::xml::{element, ElementView, XmlElement};
use vstd::prelude::*;

verus! {

/// The `logout` command: an empty `<logout>` element.
#[derive(Clone, Copy, Debug, PartialEq, Eq, Structural)]
pub struct Logout;

impl ToXml for Logout {
    open spec fn xml(&self) -> ElementView {
        element("logout"@, Seq::empty(), Seq::empty())
    }

    fn to_xml(&self) -> (e: XmlElement) {
        XmlElement::new("logout")
    }
}

impl Transaction<NoExtension> for Logout {
    type ExtensionWrapper = NoExtension;

    type Response = ();

    type ExtensionResponse = NoExtension;
}

} // verus!
