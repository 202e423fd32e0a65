//! The contact `info` command.

use crate::common::{NoExtension, ToXml};
use crate::contact::XMLNS;
use crate::request::Command;
use crate::xml::{attribute, element, text_element, ElementView, XmlElement};
use vstd::prelude::*;
use vstd::string::StringExecFns;

verus! {

/// The authorisation information of a contact.
#[derive(Debug)]
pub struct AuthInfo {
    /// The password.
    pub password: String,
}

impl AuthInfo {
    /// The authorisation by `password`.
    pub fn new(password: &str) -> (r: AuthInfo)
        ensures
            r.password@ == password@,
    {
        AuthInfo { password: String::from_str(password) }
    }
}

/// What stands under the `<info>` element of a contact query.
#[derive(Debug)]
pub struct ContactInfoData {
    /// The namespace of contact objects.
    pub xmlns: String,
    /// The identifier of the contact.
    pub id: String,
    /// The authorisation information.
    pub auth_info: AuthInfo,
}

/// The contact `info` command.
#[derive(Debug)]
pub struct ContactInfo {
    /// The data under `<info>`.
    pub info: ContactInfoData,
}

/// The `<info>` element for a contact: its identifier and the password
/// inside `<contact:authInfo>`.
pub open spec fn contact_info_view(xmlns: Seq<char>, id: Seq<char>, password: Seq<char>) -> ElementView {
    element(
        "info"@,
        Seq::empty(),
        seq![
            element(
                "contact:info"@,
                seq![attribute("xmlns:contact"@, xmlns)],
                seq![
                    text_element("contact:id"@, id),
                    element(
                        "contact:authInfo"@,
                        Seq::empty(),
                        seq![text_element("contact:pw"@, password)],
                    ),
                ],
            ),
        ],
    )
}

impl ToXml for ContactInfo {
    open spec fn xml(&self) -> ElementView {
        contact_info_view(self.info.xmlns@, self.info.id@, self.info.auth_info.password@)
    }

    fn to_xml(&self) -> (e: XmlElement) {
        let ghost v = self.xml();
        let mut auth = XmlElement::new("contact:authInfo");
        auth.add_child(XmlElement::with_text("contact:pw", self.info.auth_info.password.as_str()));
        assert(auth@.children =~= v.children[0].children[1].children);
        let mut inner = XmlElement::new("contact:info");
        inner.add_attribute("xmlns:contact", self.info.xmlns.as_str());
        inner.add_child(XmlElement::with_text("contact:id", self.info.id.as_str()));
        inner.add_child(auth);
        assert(inner@.attributes =~= v.children[0].attributes);
        assert(inner@.children =~= v.children[0].children);
        let mut e = XmlElement::new("info");
        e.add_child(inner);
        assert(e@.children =~= v.children);
        e
    }
}

/// A contact `info` command with its client transaction identifier.
pub type EppContactInfo = Command<ContactInfo, NoExtension>;

impl EppContactInfo {
    /// The query for the contact `id`, authorised by `auth_password`, as a
    /// command with the client transaction identifier `client_tr_id`.
    pub fn new(id: &str, auth_password: &str, client_tr_id: &str) -> (r: EppContactInfo)
        ensures
            r.command.xml() == contact_info_view(XMLNS@, id@, auth_password@),
            r.extension is None,
            r.client_tr_id@ == client_tr_id@,
    {
        Command {
            command: ContactInfo {
                info: ContactInfoData {
                    xmlns: String::from_str(XMLNS),
                    id: String::from_str(id),
                    auth_info: AuthInfo::new(auth_password),
                },
            },
            extension: None,
            client_tr_id: String::from_str(client_tr_id),
        }
    }
}

impl crate::request::Transaction<NoExtension> for ContactInfo {
    type ExtensionWrapper = NoExtension;

    type Response = ();

    type ExtensionResponse = NoExtension;
}

} // verus!
