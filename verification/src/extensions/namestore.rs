//! The NameStore extension, which names the sub-product that a command is
//! meant for.

use crate::common::{Extension, FromXml, NoExtension, ToXml};
use crate::contact::check::ContactCheck;
use crate::contact::delete::ContactDelete;
use crate::contact::info::ContactInfo;
use crate::domain::check::DomainCheck;
use crate::domain::delete::DomainDelete;
use crate::domain::transfer::DomainTransfer;
use crate::domain::update::DomainUpdate;
use crate::host::check::HostCheck;
use crate::host::create::HostCreate;
use crate::host::delete::HostDelete;
use crate::query::{child_text, find_attribute, find_child};
use crate::request::Transaction;
use crate::response::ReplyExtension;
use crate::xml::{attribute, element, text_element, ElementView, XmlElement};
use vstd::prelude::*;
use vstd::string::StringExecFns;

verus! {

/// The namespace of the NameStore extension.
pub const XMLNS: &'static str = "http://www.verisign-grs.com/epp/namestoreExt-1.1";

/// The NameStore extension.
#[derive(Debug)]
pub struct NameStore {
    /// The namespace of the extension.
    pub xmlns: String,
    /// The sub-product.
    pub subproduct: String,
}

/// The `<namestoreExt:namestoreExt>` element.
pub open spec fn namestore_view(xmlns: Seq<char>, subproduct: Seq<char>) -> ElementView {
    element(
        "namestoreExt:namestoreExt"@,
        seq![attribute("xmlns:namestoreExt"@, xmlns)],
        seq![text_element("namestoreExt:subProduct"@, subproduct)],
    )
}

impl NameStore {
    /// The extension for the sub-product `subproduct`.
    pub fn new(subproduct: &str) -> (r: NameStore)
        ensures
            r.xmlns@ == XMLNS@,
            r.subproduct@ == subproduct@,
            r.xml() == namestore_view(XMLNS@, subproduct@),
    {
        NameStore { xmlns: String::from_str(XMLNS), subproduct: String::from_str(subproduct) }
    }
}

impl ToXml for NameStore {
    open spec fn xml(&self) -> ElementView {
        namestore_view(self.xmlns@, self.subproduct@)
    }

    fn to_xml(&self) -> (e: XmlElement) {
        let mut e = XmlElement::new("namestoreExt:namestoreExt");
        e.add_attribute("xmlns:namestoreExt", self.xmlns.as_str());
        e.add_child(XmlElement::with_text("namestoreExt:subProduct", self.subproduct.as_str()));
        assert(e@.attributes =~= self.xml().attributes);
        assert(e@.children =~= self.xml().children);
        e
    }
}

/// What an `<extension>` element holds of NameStore: the namespace
/// declared on its `<namestoreExt>` and the text of the `<subProduct>`.
pub open spec fn namestore_of(extension: ElementView) -> Option<(Seq<char>, Seq<char>)> {
    match find_child(extension.children, "namestoreExt"@) {
        None => None,
        Some(n) => match (
            find_attribute(n.attributes, "xmlns:namestoreExt"@),
            child_text(n, "subProduct"@),
        ) {
            (Some(xmlns), Some(subproduct)) => Some((xmlns, subproduct)),
            _ => None,
        },
    }
}

impl FromXml for NameStore {
    open spec fn decodable(e: ElementView) -> bool {
        namestore_of(e) is Some
    }

    open spec fn decodes(e: ElementView, v: NameStore) -> bool {
        namestore_of(e) == Some((v.xmlns@, v.subproduct@))
    }

    fn from_xml(e: &XmlElement) -> (r: Option<NameStore>) {
        let n = match e.child("namestoreExt") {
            Some(x) => x,
            None => {
                return None;
            },
        };
        let xmlns = match n.attribute("xmlns:namestoreExt") {
            Some(x) => x.clone(),
            None => {
                return None;
            },
        };
        let subproduct = match n.child_text("subProduct") {
            Some(x) => x,
            None => {
                return None;
            },
        };
        Some(NameStore { xmlns, subproduct })
    }
}

impl ReplyExtension for NameStore {
    open spec fn declared() -> bool {
        true
    }

    fn is_declared() -> (b: bool) {
        true
    }
}

// Contact

impl Transaction<NameStore> for ContactCheck {
    type ExtensionWrapper = Extension<NameStore>;

    type Response = <ContactCheck as Transaction<NoExtension>>::Response;

    type ExtensionResponse = NameStore;
}

impl Transaction<NameStore> for ContactDelete {
    type ExtensionWrapper = Extension<NameStore>;

    type Response = <ContactDelete as Transaction<NoExtension>>::Response;

    type ExtensionResponse = NameStore;
}

impl Transaction<NameStore> for ContactInfo {
    type ExtensionWrapper = Extension<NameStore>;

    type Response = <ContactInfo as Transaction<NoExtension>>::Response;

    type ExtensionResponse = NameStore;
}

// Domain

impl Transaction<NameStore> for DomainCheck {
    type ExtensionWrapper = Extension<NameStore>;

    type Response = <DomainCheck as Transaction<NoExtension>>::Response;

    type ExtensionResponse = NameStore;
}

impl Transaction<NameStore> for DomainDelete {
    type ExtensionWrapper = Extension<NameStore>;

    type Response = <DomainDelete as Transaction<NoExtension>>::Response;

    type ExtensionResponse = NameStore;
}

impl Transaction<NameStore> for DomainTransfer {
    type ExtensionWrapper = Extension<NameStore>;

    type Response = <DomainTransfer as Transaction<NoExtension>>::Response;

    type ExtensionResponse = NameStore;
}

impl Transaction<NameStore> for DomainUpdate {
    type ExtensionWrapper = Extension<NameStore>;

    type Response = <DomainUpdate as Transaction<NoExtension>>::Response;

    type ExtensionResponse = NameStore;
}

// Host

impl Transaction<NameStore> for HostCheck {
    type ExtensionWrapper = Extension<NameStore>;

    type Response = <HostCheck as Transaction<NoExtension>>::Response;

    type ExtensionResponse = NameStore;
}

impl Transaction<NameStore> for HostCreate {
    type ExtensionWrapper = Extension<NameStore>;

    type Response = <HostCreate as Transaction<NoExtension>>::Response;

    type ExtensionResponse = NameStore;
}

impl Transaction<NameStore> for HostDelete {
    type ExtensionWrapper = Extension<NameStore>;

    type Response = <HostDelete as Transaction<NoExtension>>::Response;

    type ExtensionResponse = NameStore;
}

} // verus!
