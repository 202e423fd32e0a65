//! The host `check` command and its reply.

use crate::common::{FromXml, NoExtension, ToXml};
use crate::host::XMLNS;
use crate::fields::{check_data_of, read_check_data, CheckItemView};
use crate::query::{find_attribute, find_child};
use crate::request::Transaction;
use crate::response::option_view;
use crate::text::strings_view;
use crate::xml::{attribute, element, text_elements, ElementView, XmlElement};
use vstd::prelude::*;
use vstd::string::StringExecFns;

verus! {

/// The list of hosts to be checked.
#[derive(Debug)]
pub struct HostList {
    /// The namespace of host objects.
    pub xmlns: String,
    /// The hosts to be checked for availability.
    pub hosts: Vec<String>,
}

/// The host `check` command.
#[derive(Debug)]
pub struct HostCheck {
    /// The list under `<check>`.
    pub list: HostList,
}

/// The `<check>` element for hosts: one `<host:name>` for each, in order.
pub open spec fn host_check_view(xmlns: Seq<char>, hosts: Seq<Seq<char>>) -> ElementView {
    element(
        "check"@,
        Seq::empty(),
        seq![
            element(
                "host:check"@,
                seq![attribute("xmlns:host"@, xmlns)],
                text_elements("host:name"@, hosts),
            ),
        ],
    )
}

/// The characters of each of `items`, in order.
pub open spec fn strs_view(items: Seq<&str>) -> Seq<Seq<char>> {
    Seq::new(items.len(), |i: int| items[i]@)
}

impl HostCheck {
    /// A check of the given hosts.
    pub fn new(hosts: &[&str]) -> (r: HostCheck)
        ensures
            r.xml() == host_check_view(XMLNS@, strs_view(hosts@)),
    {
        let mut owned: Vec<String> = Vec::new();
        let mut i: usize = 0;
        while i < hosts.len()
            invariant
                i <= hosts@.len(),
                owned@.len() == i,
                forall|j: int| 0 <= j < i ==> (#[trigger] owned@[j])@ == hosts@[j]@,
            decreases hosts@.len() - i,
        {
            owned.push(String::from_str(hosts[i]));
            i = i + 1;
        }
        assert(strings_view(owned@) =~= strs_view(hosts@));
        HostCheck { list: HostList { xmlns: String::from_str(XMLNS), hosts: owned } }
    }
}

impl ToXml for HostCheck {
    open spec fn xml(&self) -> ElementView {
        host_check_view(self.list.xmlns@, strings_view(self.list.hosts@))
    }

    fn to_xml(&self) -> (e: XmlElement) {
        let ghost v = self.xml();
        let mut inner = XmlElement::new("host:check");
        inner.add_attribute("xmlns:host", self.list.xmlns.as_str());
        inner.add_text_children("host:name", &self.list.hosts);
        assert(inner@.attributes =~= v.children[0].attributes);
        assert(inner@.children =~= v.children[0].children);
        let mut e = XmlElement::new("check");
        e.add_child(inner);
        assert(e@.children =~= v.children);
        e
    }
}

impl Transaction<NoExtension> for HostCheck {
    type ExtensionWrapper = NoExtension;

    type Response = HostCheckResponse;

    type ExtensionResponse = NoExtension;
}

/// The `<name>` of one item of the reply: a host and whether it is available.
#[derive(Debug)]
pub struct HostAvailable {
    /// The text of the `<name>` element.
    pub name: String,
    /// The `avail` attribute.
    pub available: u16,
}

/// One `<cd>` of the reply.
#[derive(Debug)]
pub struct HostCheckDataItem {
    /// The data of the `<name>` element.
    pub host: HostAvailable,
    /// The reason for the (un)availability.
    pub reason: Option<String>,
}

/// The `<chkData>` of the reply.
#[derive(Debug)]
pub struct HostCheckData {
    /// The namespace of host objects.
    pub xmlns: String,
    /// The items, one for each `<cd>`.
    pub host_list: Vec<HostCheckDataItem>,
}

/// The `<resData>` of the reply to a host check.
#[derive(Debug)]
pub struct HostCheckResponse {
    /// The data under `<chkData>`.
    pub check_data: HostCheckData,
}

/// The items of a reply as plain values.
pub open spec fn items_view(items: Seq<HostCheckDataItem>) -> Seq<CheckItemView> {
    Seq::new(
        items.len(),
        |i: int|
            CheckItemView {
                name: items[i].host.name@,
                available: items[i].host.available as int,
                reason: option_view(items[i].reason),
            },
    )
}

/// What a `<resData>` element holds for a host check: the namespace declared
/// on its `<chkData>` and the items of the `<cd>` elements in it.
pub open spec fn host_check_of(res_data: ElementView) -> Option<(Seq<char>, Seq<CheckItemView>)> {
    match find_child(res_data.children, "chkData"@) {
        None => None,
        Some(chk) => match (
            find_attribute(chk.attributes, "xmlns:host"@),
            check_data_of(chk, "name"@),
        ) {
            (Some(xmlns), Some(items)) => Some((xmlns, items)),
            _ => None,
        },
    }
}

impl FromXml for HostCheckResponse {
    open spec fn decodable(e: ElementView) -> bool {
        host_check_of(e) is Some
    }

    open spec fn decodes(e: ElementView, v: HostCheckResponse) -> bool {
        host_check_of(e) == Some((v.check_data.xmlns@, items_view(v.check_data.host_list@)))
    }

    fn from_xml(e: &XmlElement) -> (r: Option<HostCheckResponse>) {
        let chk = match e.child("chkData") {
            Some(x) => x,
            None => {
                return None;
            },
        };
        let xmlns = match chk.attribute("xmlns:host") {
            Some(x) => x.clone(),
            None => {
                return None;
            },
        };
        let read = match read_check_data(chk, "name") {
            Some(x) => x,
            None => {
                return None;
            },
        };
        let ghost expected = crate::fields::check_items_view(read@);
        let mut items: Vec<HostCheckDataItem> = Vec::new();
        let mut i: usize = 0;
        while i < read.len()
            invariant
                i <= read@.len(),
                items@.len() == i,
                expected == crate::fields::check_items_view(read@),
                forall|j: int| 0 <= j < i ==> #[trigger] items_view(items@)[j] == expected[j],
            decreases read@.len() - i,
        {
            let ghost before = items_view(items@);
            let reason = match &read[i].reason {
                Some(x) => Some(x.clone()),
                None => None,
            };
            items.push(
                HostCheckDataItem {
                    host: HostAvailable {
                        name: read[i].name.clone(),
                        available: read[i].available,
                    },
                    reason,
                },
            );
            assert forall|j: int| 0 <= j < i + 1 implies #[trigger] items_view(items@)[j]
                == expected[j] by {
                if j < i {
                    assert(items_view(items@)[j] == before[j]);
                }
            }
            i = i + 1;
        }
        assert(items_view(items@) =~= expected);
        Some(HostCheckResponse { check_data: HostCheckData { xmlns, host_list: items } })
    }
}

} // verus!
