//! The domain `delete` command.

use crate::common::{NoExtension, ToXml};
use crate::domain::XMLNS;
use crate::request::Transaction;
use crate::xml::{attribute, element, text_element, ElementView, XmlElement};
use vstd::prelude::*;
use vstd::string::StringExecFns;

verus! {

/// What stands under the `<delete>` element of a domain deletion.
#[derive(Debug)]
pub struct DomainDeleteRequestData {
    /// The namespace of domain objects.
    pub xmlns: String,
    /// The domain to be deleted.
    pub name: String,
}

/// The domain `delete` command.
#[derive(Debug)]
pub struct DomainDelete {
    /// The data under `<delete>`.
    pub domain: DomainDeleteRequestData,
}

/// The `<delete>` element for a domain.
pub open spec fn domain_delete_view(xmlns: Seq<char>, name: Seq<char>) -> ElementView {
    element(
        "delete"@,
        Seq::empty(),
        seq![
            element(
                "domain:delete"@,
                seq![attribute("xmlns:domain"@, xmlns)],
                seq![text_element("domain:name"@, name)],
            ),
        ],
    )
}

impl DomainDelete {
    /// The deletion of the domain `name`.
    pub fn new(name: &str) -> (r: DomainDelete)
        ensures
            r.xml() == domain_delete_view(XMLNS@, name@),
    {
        DomainDelete {
            domain: DomainDeleteRequestData {
                xmlns: String::from_str(XMLNS),
                name: String::from_str(name),
            },
        }
    }
}

impl ToXml for DomainDelete {
    open spec fn xml(&self) -> ElementView {
        domain_delete_view(self.domain.xmlns@, self.domain.name@)
    }

    fn to_xml(&self) -> (e: XmlElement) {
        let ghost v = self.xml();
        let mut inner = XmlElement::new("domain:delete");
        inner.add_attribute("xmlns:domain", self.domain.xmlns.as_str());
        inner.add_child(XmlElement::with_text("domain:name", self.domain.name.as_str()));
        assert(inner@.attributes =~= v.children[0].attributes);
        assert(inner@.children =~= v.children[0].children);
        let mut e = XmlElement::new("delete");
        e.add_child(inner);
        assert(e@.children =~= v.children);
        e
    }
}

impl Transaction<NoExtension> for DomainDelete {
    type ExtensionWrapper = NoExtension;

    type Response = ();

    type ExtensionResponse = NoExtension;
}

} // verus!
