//! The host `create` command and its reply.

use crate::common::{FromXml, NoExtension, ToXml};
use crate::host::XMLNS;
use crate::query::{child_text, find_attribute, find_child};
use crate::request::Transaction;
use crate::xml::{attribute, element, text_element, ElementView, XmlElement};
use vstd::prelude::*;
use vstd::string::StringExecFns;

verus! {

/// An address of a host.
#[derive(Debug)]
pub struct HostAddr {
    /// The version of the address: `v4` or `v6`.
    pub ip_version: String,
    /// The address.
    pub address: String,
}

impl HostAddr {
    /// The address `address` of the version `ip_version`.
    pub fn new(ip_version: &str, address: &str) -> (r: HostAddr)
        ensures
            r.ip_version@ == ip_version@,
            r.address@ == address@,
    {
        HostAddr { ip_version: String::from_str(ip_version), address: String::from_str(address) }
    }
}

/// The `<host:addr>` element of an address.
pub open spec fn address_view(a: HostAddr) -> ElementView {
    ElementView {
        name: "host:addr"@,
        attributes: seq![attribute("ip"@, a.ip_version@)],
        text: a.address@,
        children: Seq::empty(),
    }
}

/// The `<host:addr>` elements of a list of addresses, in order.
pub open spec fn addresses_view(addresses: Seq<HostAddr>) -> Seq<ElementView> {
    Seq::new(addresses.len(), |i: int| address_view(addresses[i]))
}

/// The `<host:addr>` elements of an optional list of addresses.
pub open spec fn option_addresses_view(addresses: Option<Vec<HostAddr>>) -> Seq<ElementView> {
    match addresses {
        Some(x) => addresses_view(x@),
        None => Seq::empty(),
    }
}

/// What stands under the `<create>` element of a host creation.
#[derive(Debug)]
pub struct HostCreateRequestData {
    /// The namespace of host objects.
    pub xmlns: String,
    /// The name of the host to be created.
    pub name: String,
    /// The addresses of the host.
    pub addresses: Option<Vec<HostAddr>>,
}

/// The host `create` command.
#[derive(Debug)]
pub struct HostCreate {
    /// The data under `<create>`.
    pub host: HostCreateRequestData,
}

/// The `<create>` element for a host: its name, then its addresses.
pub open spec fn host_create_view(xmlns: Seq<char>, name: Seq<char>, addresses: Seq<ElementView>) -> ElementView {
    element(
        "create"@,
        Seq::empty(),
        seq![
            element(
                "host:create"@,
                seq![attribute("xmlns:host"@, xmlns)],
                seq![text_element("host:name"@, name)] + addresses,
            ),
        ],
    )
}

impl HostCreate {
    /// The creation of the host `host` with the given addresses.
    pub fn new(host: &str, addresses: Vec<HostAddr>) -> (r: HostCreate)
        ensures
            r.xml() == host_create_view(XMLNS@, host@, addresses_view(addresses@)),
    {
        HostCreate {
            host: HostCreateRequestData {
                xmlns: String::from_str(XMLNS),
                name: String::from_str(host),
                addresses: Some(addresses),
            },
        }
    }
}

impl ToXml for HostCreate {
    open spec fn xml(&self) -> ElementView {
        host_create_view(
            self.host.xmlns@,
            self.host.name@,
            option_addresses_view(self.host.addresses),
        )
    }

    fn to_xml(&self) -> (e: XmlElement) {
        let ghost v = self.xml();
        let ghost wanted = option_addresses_view(self.host.addresses);
        let mut inner = XmlElement::new("host:create");
        inner.add_attribute("xmlns:host", self.host.xmlns.as_str());
        inner.add_child(XmlElement::with_text("host:name", self.host.name.as_str()));
        let ghost first = inner@.children;
        match &self.host.addresses {
            Some(list) => {
                let mut i: usize = 0;
                assert(inner@.children =~= first + wanted.take(0));
                while i < list.len()
                    invariant
                        i <= list@.len(),
                        wanted == addresses_view(list@),
                        inner@.name == "host:create"@,
                        inner@.text == Seq::<char>::empty(),
                        inner@.attributes == seq![attribute("xmlns:host"@, self.host.xmlns@)],
                        inner@.children == first + wanted.take(i as int),
                    decreases list@.len() - i,
                {
                    let mut a = XmlElement::with_text("host:addr", list[i].address.as_str());
                    a.add_attribute("ip", list[i].ip_version.as_str());
                    assert(a@.attributes =~= address_view(list@[i as int]).attributes);
                    inner.add_child(a);
                    assert(inner@.children =~= first + wanted.take(i + 1));
                    i = i + 1;
                }
                assert(wanted.take(i as int) =~= wanted);
            },
            None => {
                assert(inner@.children =~= first + wanted);
            },
        }
        assert(inner@.attributes =~= v.children[0].attributes);
        assert(inner@.children =~= v.children[0].children);
        let mut e = XmlElement::new("create");
        e.add_child(inner);
        assert(e@.children =~= v.children);
        e
    }
}

impl Transaction<NoExtension> for HostCreate {
    type ExtensionWrapper = NoExtension;

    type Response = HostCreateResponse;

    type ExtensionResponse = NoExtension;
}

/// The `<creData>` of the reply to a host creation.
#[derive(Debug)]
pub struct HostCreateData {
    /// The namespace of host objects.
    pub xmlns: String,
    /// The name of the host.
    pub name: String,
    /// When the host was created.
    pub created_at: String,
}

/// The `<resData>` of the reply to a host creation.
#[derive(Debug)]
pub struct HostCreateResponse {
    /// The data under `<creData>`.
    pub create_data: HostCreateData,
}

/// What a `<resData>` element holds for a host creation: the namespace
/// declared on its `<creData>`, and the texts of `<name>` and `<crDate>`.
pub open spec fn host_create_of(res_data: ElementView) -> Option<(Seq<char>, Seq<char>, Seq<char>)> {
    match find_child(res_data.children, "creData"@) {
        None => None,
        Some(cre) => match (
            find_attribute(cre.attributes, "xmlns:host"@),
            child_text(cre, "name"@),
            child_text(cre, "crDate"@),
        ) {
            (Some(xmlns), Some(name), Some(created_at)) => Some((xmlns, name, created_at)),
            _ => None,
        },
    }
}

impl FromXml for HostCreateResponse {
    open spec fn decodable(e: ElementView) -> bool {
        host_create_of(e) is Some
    }

    open spec fn decodes(e: ElementView, v: HostCreateResponse) -> bool {
        host_create_of(e) == Some(
            (v.create_data.xmlns@, v.create_data.name@, v.create_data.created_at@),
        )
    }

    fn from_xml(e: &XmlElement) -> (r: Option<HostCreateResponse>) {
        let cre = match e.child("creData") {
            Some(x) => x,
            None => {
                return None;
            },
        };
        let xmlns = match cre.attribute("xmlns:host") {
            Some(x) => x.clone(),
            None => {
                return None;
            },
        };
        let name = match cre.child_text("name") {
            Some(x) => x,
            None => {
                return None;
            },
        };
        let created_at = match cre.child_text("crDate") {
            Some(x) => x,
            None => {
                return None;
            },
        };
        Some(HostCreateResponse { create_data: HostCreateData { xmlns, name, created_at } })
    }
}

} // verus!
