//! The contact `delete` command.

use crate::common::{NoExtension, ToXml};
use crate::contact::XMLNS;
use crate::request::Transaction;
use crate::xml::{attribute, element, text_element, ElementView, XmlElement};
use vstd::prelude::*;
use vstd::string::StringExecFns;

verus! {

/// What stands under the `<delete>` element of a contact deletion.
#[derive(Debug)]
pub struct ContactDeleteRequestData {
    /// The namespace of contact objects.
    pub xmlns: String,
    /// The contact to be deleted.
    pub id: String,
}

/// The contact `delete` command.
#[derive(Debug)]
pub struct ContactDelete {
    /// The data under `<delete>`.
    pub contact: ContactDeleteRequestData,
}

/// The `<delete>` element for a contact.
pub open spec fn contact_delete_view(xmlns: Seq<char>, id: Seq<char>) -> ElementView {
    element(
        "delete"@,
        Seq::empty(),
        seq![
            element(
                "contact:delete"@,
                seq![attribute("xmlns:contact"@, xmlns)],
                seq![text_element("contact:id"@, id)],
            ),
        ],
    )
}

impl ContactDelete {
    /// The deletion of the contact `id`.
    pub fn new(id: &str) -> (r: ContactDelete)
        ensures
            r.xml() == contact_delete_view(XMLNS@, id@),
    {
        ContactDelete {
            contact: ContactDeleteRequestData { xmlns: String::from_str(XMLNS), id: String::from_str(id) },
        }
    }
}

impl ToXml for ContactDelete {
    open spec fn xml(&self) -> ElementView {
        contact_delete_view(self.contact.xmlns@, self.contact.id@)
    }

    fn to_xml(&self) -> (e: XmlElement) {
        let ghost v = self.xml();
        let mut inner = XmlElement::new("contact:delete");
        inner.add_attribute("xmlns:contact", self.contact.xmlns.as_str());
        inner.add_child(XmlElement::with_text("contact:id", self.contact.id.as_str()));
        assert(inner@.attributes =~= v.children[0].attributes);
        assert(inner@.children =~= v.children[0].children);
        let mut e = XmlElement::new("delete");
        e.add_child(inner);
        assert(e@.children =~= v.children);
        e
    }
}

impl Transaction<NoExtension> for ContactDelete {
    type ExtensionWrapper = NoExtension;

    type Response = ();

    type ExtensionResponse = NoExtension;
}

} // verus!
