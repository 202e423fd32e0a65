//! The domain `update` command.

use crate::common::{NoExtension, ToXml};
use crate::domain::transfer::{auth_info_view, option_auth_view, DomainAuthInfo};
use crate::domain::XMLNS;
use crate::request::Transaction;
use crate::response::option_view;
use crate::xml::{attribute, element, text_element, ElementView, XmlElement};
use vstd::prelude::*;
use vstd::string::StringExecFns;

verus! {

/// What an update changes of a domain.
#[derive(Debug)]
pub struct DomainChangeInfo {
    /// The new registrant.
    pub registrant: Option<String>,
    /// The new authorisation information.
    pub auth_info: Option<DomainAuthInfo>,
}

/// What stands under the `<update>` element of a domain update.
#[derive(Debug)]
pub struct DomainUpdateRequestData {
    /// The namespace of domain objects.
    pub xmlns: String,
    /// The name of the domain.
    pub name: String,
    /// What is to be changed.
    pub change_info: Option<DomainChangeInfo>,
}

/// The domain `update` command.
#[derive(Debug)]
pub struct DomainUpdate {
    /// The data under `<update>`.
    pub domain: DomainUpdateRequestData,
}

/// The plain value of a change: the registrant and the password.
pub open spec fn change_view(c: Option<DomainChangeInfo>) -> Option<
    (Option<Seq<char>>, Option<Seq<char>>),
> {
    match c {
        Some(x) => Some((option_view(x.registrant), option_auth_view(x.auth_info))),
        None => None,
    }
}

/// The `<domain:chg>` element of a change.
pub open spec fn chg_view(registrant: Option<Seq<char>>, password: Option<Seq<char>>) -> ElementView {
    element(
        "domain:chg"@,
        Seq::empty(),
        (match registrant {
            Some(r) => seq![text_element("domain:registrant"@, r)],
            None => Seq::empty(),
        }) + (match password {
            Some(p) => seq![auth_info_view(p)],
            None => Seq::empty(),
        }),
    )
}

/// The `<update>` element for a domain: its name, and `<domain:chg>` where
/// there is a change.
pub open spec fn domain_update_view(
    xmlns: Seq<char>,
    name: Seq<char>,
    change: Option<(Option<Seq<char>>, Option<Seq<char>>)>,
) -> ElementView {
    element(
        "update"@,
        Seq::empty(),
        seq![
            element(
                "domain:update"@,
                seq![attribute("xmlns:domain"@, xmlns)],
                seq![text_element("domain:name"@, name)] + (match change {
                    Some((registrant, password)) => seq![chg_view(registrant, password)],
                    None => Seq::empty(),
                }),
            ),
        ],
    )
}

impl DomainUpdate {
    /// An update of the domain `name` that changes nothing yet.
    pub fn new(name: &str) -> (r: DomainUpdate)
        ensures
            r.xml() == domain_update_view(XMLNS@, name@, None),
    {
        DomainUpdate {
            domain: DomainUpdateRequestData {
                xmlns: String::from_str(XMLNS),
                name: String::from_str(name),
                change_info: None,
            },
        }
    }

    /// Sets what the update changes.
    pub fn info(&mut self, info: DomainChangeInfo)
        ensures
            final(self).xml() == domain_update_view(
                old(self).domain.xmlns@,
                old(self).domain.name@,
                change_view(Some(info)),
            ),
    {
        self.domain.change_info = Some(info);
    }
}

impl ToXml for DomainUpdate {
    open spec fn xml(&self) -> ElementView {
        domain_update_view(
            self.domain.xmlns@,
            self.domain.name@,
            change_view(self.domain.change_info),
        )
    }

    fn to_xml(&self) -> (e: XmlElement) {
        let ghost v = self.xml();
        let mut inner = XmlElement::new("domain:update");
        inner.add_attribute("xmlns:domain", self.domain.xmlns.as_str());
        inner.add_child(XmlElement::with_text("domain:name", self.domain.name.as_str()));
        match &self.domain.change_info {
            Some(c) => {
                let mut chg = XmlElement::new("domain:chg");
                match &c.registrant {
                    Some(r) => {
                        chg.add_child(XmlElement::with_text("domain:registrant", r.as_str()));
                    },
                    None => {},
                }
                match &c.auth_info {
                    Some(a) => {
                        let mut auth = XmlElement::new("domain:authInfo");
                        auth.add_child(XmlElement::with_text("domain:pw", a.password.as_str()));
                        assert(auth@.children =~= auth_info_view(a.password@).children);
                        chg.add_child(auth);
                    },
                    None => {},
                }
                assert(chg@.children =~= chg_view(
                    option_view(c.registrant),
                    option_auth_view(c.auth_info),
                ).children);
                inner.add_child(chg);
            },
            None => {},
        }
        assert(inner@.attributes =~= v.children[0].attributes);
        assert(inner@.children =~= v.children[0].children);
        let mut e = XmlElement::new("update");
        e.add_child(inner);
        assert(e@.children =~= v.children);
        e
    }
}

impl Transaction<NoExtension> for DomainUpdate {
    type ExtensionWrapper = NoExtension;

    type Response = ();

    type ExtensionResponse = NoExtension;
}

} // verus!
