//! The domain `check` command and its reply.

use crate::common::{FromXml, NoExtension, ToXml};
use crate::domain::XMLNS;
use crate::fields::{check_data_of, read_check_data, CheckItemView};
use crate::query::{find_attribute, find_child};
use crate::request::Transaction;
use crate::response::option_view;
use crate::text::strings_view;
use crate::xml::{attribute, element, text_elements, ElementView, XmlElement};
use vstd::prelude::*;
use vstd::string::StringExecFns;

verus! {

/// The list of domains to be checked.
#[derive(Debug)]
pub struct DomainList {
    /// The namespace of domain objects.
    pub xmlns: String,
    /// The domains to be checked for availability.
    pub domains: Vec<String>,
}

/// The domain `check` command.
#[derive(Debug)]
pub struct DomainCheck {
    /// The list under `<check>`.
    pub list: DomainList,
}

/// The `<check>` element for domains: one `<domain:name>` for each, in order.
pub open spec fn domain_check_view(xmlns: Seq<char>, domains: Seq<Seq<char>>) -> ElementView {
    element(
        "check"@,
        Seq::empty(),
        seq![
            element(
                "domain:check"@,
                seq![attribute("xmlns:domain"@, xmlns)],
                text_elements("domain:name"@, domains),
            ),
        ],
    )
}

/// The characters of each of `items`, in order.
pub open spec fn strs_view(items: Seq<&str>) -> Seq<Seq<char>> {
    Seq::new(items.len(), |i: int| items[i]@)
}

impl DomainCheck {
    /// A check of the given domains.
    pub fn new(domains: &[&str]) -> (r: DomainCheck)
        ensures
            r.xml() == domain_check_view(XMLNS@, strs_view(domains@)),
    {
        let mut owned: Vec<String> = Vec::new();
        let mut i: usize = 0;
        while i < domains.len()
            invariant
                i <= domains@.len(),
                owned@.len() == i,
                forall|j: int| 0 <= j < i ==> (#[trigger] owned@[j])@ == domains@[j]@,
            decreases domains@.len() - i,
        {
            owned.push(String::from_str(domains[i]));
            i = i + 1;
        }
        assert(strings_view(owned@) =~= strs_view(domains@));
        DomainCheck { list: DomainList { xmlns: String::from_str(XMLNS), domains: owned } }
    }
}

impl ToXml for DomainCheck {
    open spec fn xml(&self) -> ElementView {
        domain_check_view(self.list.xmlns@, strings_view(self.list.domains@))
    }

    fn to_xml(&self) -> (e: XmlElement) {
        let ghost v = self.xml();
        let mut inner = XmlElement::new("domain:check");
        inner.add_attribute("xmlns:domain", self.list.xmlns.as_str());
        inner.add_text_children("domain:name", &self.list.domains);
        assert(inner@.attributes =~= v.children[0].attributes);
        assert(inner@.children =~= v.children[0].children);
        let mut e = XmlElement::new("check");
        e.add_child(inner);
        assert(e@.children =~= v.children);
        e
    }
}

impl Transaction<NoExtension> for DomainCheck {
    type ExtensionWrapper = NoExtension;

    type Response = DomainCheckResponse;

    type ExtensionResponse = NoExtension;
}

/// The `<name>` of one item of the reply: a domain and whether it is available.
#[derive(Debug)]
pub struct DomainAvailable {
    /// The text of the `<name>` element.
    pub name: String,
    /// The `avail` attribute.
    pub available: u16,
}

/// One `<cd>` of the reply.
#[derive(Debug)]
pub struct DomainCheckResponseDataItem {
    /// The data of the `<name>` element.
    pub domain: DomainAvailable,
    /// The reason for the (un)availability.
    pub reason: Option<String>,
}

/// The `<chkData>` of the reply.
#[derive(Debug)]
pub struct DomainCheckResponseData {
    /// The namespace of domain objects.
    pub xmlns: String,
    /// The items, one for each `<cd>`.
    pub domain_list: Vec<DomainCheckResponseDataItem>,
}

/// The `<resData>` of the reply to a domain check.
#[derive(Debug)]
pub struct DomainCheckResponse {
    /// The data under `<chkData>`.
    pub check_data: DomainCheckResponseData,
}

/// The items of a reply as plain values.
pub open spec fn items_view(items: Seq<DomainCheckResponseDataItem>) -> Seq<CheckItemView> {
    Seq::new(
        items.len(),
        |i: int|
            CheckItemView {
                name: items[i].domain.name@,
                available: items[i].domain.available as int,
                reason: option_view(items[i].reason),
            },
    )
}

/// What a `<resData>` element holds for a domain check: the namespace declared
/// on its `<chkData>` and the items of the `<cd>` elements in it.
pub open spec fn domain_check_of(res_data: ElementView) -> Option<(Seq<char>, Seq<CheckItemView>)> {
    match find_child(res_data.children, "chkData"@) {
        None => None,
        Some(chk) => match (
            find_attribute(chk.attributes, "xmlns:domain"@),
            check_data_of(chk, "name"@),
        ) {
            (Some(xmlns), Some(items)) => Some((xmlns, items)),
            _ => None,
        },
    }
}

impl FromXml for DomainCheckResponse {
    open spec fn decodable(e: ElementView) -> bool {
        domain_check_of(e) is Some
    }

    open spec fn decodes(e: ElementView, v: DomainCheckResponse) -> bool {
        domain_check_of(e) == Some((v.check_data.xmlns@, items_view(v.check_data.domain_list@)))
    }

    fn from_xml(e: &XmlElement) -> (r: Option<DomainCheckResponse>) {
        let chk = match e.child("chkData") {
            Some(x) => x,
            None => {
                return None;
            },
        };
        let xmlns = match chk.attribute("xmlns:domain") {
            Some(x) => x.clone(),
            None => {
                return None;
            },
        };
        let read = match read_check_data(chk, "name") {
            Some(x) => x,
            None => {
                return None;
            },
        };
        let ghost expected = crate::fields::check_items_view(read@);
        let mut items: Vec<DomainCheckResponseDataItem> = Vec::new();
        let mut i: usize = 0;
        while i < read.len()
            invariant
                i <= read@.len(),
                items@.len() == i,
                expected == crate::fields::check_items_view(read@),
                forall|j: int| 0 <= j < i ==> #[trigger] items_view(items@)[j] == expected[j],
            decreases read@.len() - i,
        {
            let ghost before = items_view(items@);
            let reason = match &read[i].reason {
                Some(x) => Some(x.clone()),
                None => None,
            };
            items.push(
                DomainCheckResponseDataItem {
                    domain: DomainAvailable {
                        name: read[i].name.clone(),
                        available: read[i].available,
                    },
                    reason,
                },
            );
            assert forall|j: int| 0 <= j < i + 1 implies #[trigger] items_view(items@)[j]
                == expected[j] by {
                if j < i {
                    assert(items_view(items@)[j] == before[j]);
                }
            }
            i = i + 1;
        }
        assert(items_view(items@) =~= expected);
        Some(DomainCheckResponse { check_data: DomainCheckResponseData { xmlns, domain_list: items } })
    }
}

} // verus!
