//! The contact `check` command and its reply.

use crate::common::{FromXml, NoExtension, ToXml};
use crate::contact::XMLNS;
use crate::fields::{check_data_of, read_check_data, CheckItemView};
use crate::query::{find_attribute, find_child};
use crate::request::Transaction;
use crate::response::option_view;
use crate::text::strings_view;
use crate::xml::{attribute, element, text_elements, ElementView, XmlElement};
use vstd::prelude::*;
use vstd::string::StringExecFns;

verus! {

/// The list of contacts to be checked.
#[derive(Debug)]
pub struct ContactList {
    /// The namespace of contact objects.
    pub xmlns: String,
    /// The contacts to be checked for availability.
    pub contact_ids: Vec<String>,
}

/// The contact `check` command.
#[derive(Debug)]
pub struct ContactCheck {
    /// The list under `<check>`.
    pub list: ContactList,
}

/// The `<check>` element for contacts: one `<contact:id>` for each, in order.
pub open spec fn contact_check_view(xmlns: Seq<char>, contact_ids: Seq<Seq<char>>) -> ElementView {
    element(
        "check"@,
        Seq::empty(),
        seq![
            element(
                "contact:check"@,
                seq![attribute("xmlns:contact"@, xmlns)],
                text_elements("contact:id"@, contact_ids),
            ),
        ],
    )
}

/// The characters of each of `items`, in order.
pub open spec fn strs_view(items: Seq<&str>) -> Seq<Seq<char>> {
    Seq::new(items.len(), |i: int| items[i]@)
}

impl ContactCheck {
    /// A check of the given contacts.
    pub fn new(contact_ids: &[&str]) -> (r: ContactCheck)
        ensures
            r.xml() == contact_check_view(XMLNS@, strs_view(contact_ids@)),
    {
        let mut owned: Vec<String> = Vec::new();
        let mut i: usize = 0;
        while i < contact_ids.len()
            invariant
                i <= contact_ids@.len(),
                owned@.len() == i,
                forall|j: int| 0 <= j < i ==> (#[trigger] owned@[j])@ == contact_ids@[j]@,
            decreases contact_ids@.len() - i,
        {
            owned.push(String::from_str(contact_ids[i]));
            i = i + 1;
        }
        assert(strings_view(owned@) =~= strs_view(contact_ids@));
        ContactCheck { list: ContactList { xmlns: String::from_str(XMLNS), contact_ids: owned } }
    }
}

impl ToXml for ContactCheck {
    open spec fn xml(&self) -> ElementView {
        contact_check_view(self.list.xmlns@, strings_view(self.list.contact_ids@))
    }

    fn to_xml(&self) -> (e: XmlElement) {
        let ghost v = self.xml();
        let mut inner = XmlElement::new("contact:check");
        inner.add_attribute("xmlns:contact", self.list.xmlns.as_str());
        inner.add_text_children("contact:id", &self.list.contact_ids);
        assert(inner@.attributes =~= v.children[0].attributes);
        assert(inner@.children =~= v.children[0].children);
        let mut e = XmlElement::new("check");
        e.add_child(inner);
        assert(e@.children =~= v.children);
        e
    }
}

impl Transaction<NoExtension> for ContactCheck {
    type ExtensionWrapper = NoExtension;

    type Response = ContactCheckResponse;

    type ExtensionResponse = NoExtension;
}

/// The `<id>` of one item of the reply: a contact and whether it is available.
#[derive(Debug)]
pub struct ContactAvailable {
    /// The text of the `<id>` element.
    pub id: String,
    /// The `avail` attribute.
    pub available: u16,
}

/// One `<cd>` of the reply.
#[derive(Debug)]
pub struct ContactCheckResponseDataItem {
    /// The data of the `<id>` element.
    pub contact: ContactAvailable,
    /// The reason for the (un)availability.
    pub reason: Option<String>,
}

/// The `<chkData>` of the reply.
#[derive(Debug)]
pub struct ContactCheckResponseData {
    /// The namespace of contact objects.
    pub xmlns: String,
    /// The items, one for each `<cd>`.
    pub contact_list: Vec<ContactCheckResponseDataItem>,
}

/// The `<resData>` of the reply to a contact check.
#[derive(Debug)]
pub struct ContactCheckResponse {
    /// The data under `<chkData>`.
    pub check_data: ContactCheckResponseData,
}

/// The items of a reply as plain values.
pub open spec fn items_view(items: Seq<ContactCheckResponseDataItem>) -> Seq<CheckItemView> {
    Seq::new(
        items.len(),
        |i: int|
            CheckItemView {
                name: items[i].contact.id@,
                available: items[i].contact.available as int,
                reason: option_view(items[i].reason),
            },
    )
}

/// What a `<resData>` element holds for a contact check: the namespace declared
/// on its `<chkData>` and the items of the `<cd>` elements in it.
pub open spec fn contact_check_of(res_data: ElementView) -> Option<(Seq<char>, Seq<CheckItemView>)> {
    match find_child(res_data.children, "chkData"@) {
        None => None,
        Some(chk) => match (
            find_attribute(chk.attributes, "xmlns:contact"@),
            check_data_of(chk, "id"@),
        ) {
            (Some(xmlns), Some(items)) => Some((xmlns, items)),
            _ => None,
        },
    }
}

impl FromXml for ContactCheckResponse {
    open spec fn decodable(e: ElementView) -> bool {
        contact_check_of(e) is Some
    }

    open spec fn decodes(e: ElementView, v: ContactCheckResponse) -> bool {
        contact_check_of(e) == Some((v.check_data.xmlns@, items_view(v.check_data.contact_list@)))
    }

    fn from_xml(e: &XmlElement) -> (r: Option<ContactCheckResponse>) {
        let chk = match e.child("chkData") {
            Some(x) => x,
            None => {
                return None;
            },
        };
        let xmlns = match chk.attribute("xmlns:contact") {
            Some(x) => x.clone(),
            None => {
                return None;
            },
        };
        let read = match read_check_data(chk, "id") {
            Some(x) => x,
            None => {
                return None;
            },
        };
        let ghost expected = crate::fields::check_items_view(read@);
        let mut items: Vec<ContactCheckResponseDataItem> = Vec::new();
        let mut i: usize = 0;
        while i < read.len()
            invariant
                i <= read@.len(),
                items@.len() == i,
                expected == crate::fields::check_items_view(read@),
                forall|j: int| 0 <= j < i ==> #[trigger] items_view(items@)[j] == expected[j],
            decreases read@.len() - i,
        {
            let ghost before = items_view(items@);
            let reason = match &read[i].reason {
                Some(x) => Some(x.clone()),
                None => None,
            };
            items.push(
                ContactCheckResponseDataItem {
                    contact: ContactAvailable {
                        id: read[i].name.clone(),
                        available: read[i].available,
                    },
                    reason,
                },
            );
            assert forall|j: int| 0 <= j < i + 1 implies #[trigger] items_view(items@)[j]
                == expected[j] by {
                if j < i {
                    assert(items_view(items@)[j] == before[j]);
                }
            }
            i = i + 1;
        }
        assert(items_view(items@) =~= expected);
        Some(ContactCheckResponse { check_data: ContactCheckResponseData { xmlns, contact_list: items } })
    }
}

} // verus!
