//! The host `delete` command.

use crate::common::{NoExtension, ToXml};
use crate::host::XMLNS;
use crate::request::Transaction;
use crate::xml::{attribute, element, text_element, ElementView, XmlElement};
use vstd::prelude::*;
use vstd::string::StringExecFns;

verus! {

/// What stands under the `<delete>` element of a host deletion.
#[derive(Debug)]
pub struct HostDeleteRequestData {
    /// The namespace of host objects.
    pub xmlns: String,
    /// The host to be deleted.
    pub name: String,
}

/// The host `delete` command.
#[derive(Debug)]
pub struct HostDelete {
    /// The data under `<delete>`.
    pub host: HostDeleteRequestData,
}

/// The `<delete>` element for a host.
pub open spec fn host_delete_view(xmlns: Seq<char>, name: Seq<char>) -> ElementView {
    element(
        "delete"@,
        Seq::empty(),
        seq![
            element(
                "host:delete"@,
                seq![attribute("xmlns:host"@, xmlns)],
                seq![text_element("host:name"@, name)],
            ),
        ],
    )
}

impl HostDelete {
    /// The deletion of the host `name`.
    pub fn new(name: &str) -> (r: HostDelete)
        ensures
            r.xml() == host_delete_view(XMLNS@, name@),
    {
        HostDelete {
            host: HostDeleteRequestData { xmlns: String::from_str(XMLNS), name: String::from_str(name) },
        }
    }
}

impl ToXml for HostDelete {
    open spec fn xml(&self) -> ElementView {
        host_delete_view(self.host.xmlns@, self.host.name@)
    }

    fn to_xml(&self) -> (e: XmlElement) {
        let ghost v = self.xml();
        let mut inner = XmlElement::new("host:delete");
        inner.add_attribute("xmlns:host", self.host.xmlns.as_str());
        inner.add_child(XmlElement::with_text("host:name", self.host.name.as_str()));
        assert(inner@.attributes =~= v.children[0].attributes);
        assert(inner@.children =~= v.children[0].children);
        let mut e = XmlElement::new("delete");
        e.add_child(inner);
        assert(e@.children =~= v.children);
        e
    }
}

impl Transaction<NoExtension> for HostDelete {
    type ExtensionWrapper = NoExtension;

    type Response = ();

    type ExtensionResponse = NoExtension;
}

} // verus!
