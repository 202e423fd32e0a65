//! Payload parts that several object families share: the items of a
//! `check` reply and the data of a transfer.

use crate::query::{child_text, children_named, find_attribute, find_child, refs_view};
use crate::response::{bounded_decimal, option_view, read_bounded};
use crate::xml::{ElementView, XmlElement};
use vstd::prelude::*;

verus! {

/// One item of a `check` reply: an object and whether it is available.
#[derive(Debug)]
pub struct CheckItem {
    /// The object's name or identifier.
    pub name: String,
    /// The `avail` attribute.
    pub available: u16,
    /// The server's reason, if it gave one.
    pub reason: Option<String>,
}

/// The mathematical value of a check item.
pub struct CheckItemView {
    pub name: Seq<char>,
    pub available: int,
    pub reason: Option<Seq<char>>,
}

impl View for CheckItem {
    type V = CheckItemView;

    open spec fn view(&self) -> CheckItemView {
        CheckItemView {
            name: self.name@,
            available: self.available as int,
            reason: option_view(self.reason),
        }
    }
}

/// The views of a list of check items.
pub open spec fn check_items_view(items: Seq<CheckItem>) -> Seq<CheckItemView> {
    Seq::new(items.len(), |i: int| items[i]@)
}

/// The item that a `<cd>` element holds: the text and the `avail`
/// attribute (a number of 16 bits) of its child named `tag`, and the text
/// of its `<reason>`. `None` where the child or the attribute is missing.
pub open spec fn check_item_of(cd: ElementView, tag: Seq<char>) -> Option<CheckItemView> {
    match find_child(cd.children, tag) {
        None => None,
        Some(object) => match find_attribute(object.attributes, "avail"@) {
            None => None,
            Some(avail) => match bounded_decimal(avail, u16::MAX as int) {
                None => None,
                Some(n) => Some(
                    CheckItemView {
                        name: object.text,
                        available: n,
                        reason: child_text(cd, "reason"@),
                    },
                ),
            },
        },
    }
}

/// The items that the elements `cds` hold, after those in `acc`; `None`
/// where one of them holds none.
pub open spec fn check_items_of(
    cds: Seq<ElementView>,
    tag: Seq<char>,
    acc: Seq<CheckItemView>,
) -> Option<Seq<CheckItemView>>
    decreases cds.len(),
{
    if cds.len() == 0 {
        Some(acc)
    } else {
        match check_item_of(cds[0], tag) {
            None => None,
            Some(item) => check_items_of(cds.skip(1), tag, acc.push(item)),
        }
    }
}

/// The items of a `<chkData>` element: those of its `<cd>` children.
pub open spec fn check_data_of(chk: ElementView, tag: Seq<char>) -> Option<Seq<CheckItemView>> {
    check_items_of(children_named(chk.children, "cd"@), tag, Seq::empty())
}

/// Reads the item of a `<cd>` element.
pub fn read_check_item(cd: &XmlElement, tag: &str) -> (r: Option<CheckItem>)
    ensures
        match check_item_of(cd@, tag@) {
            Some(v) => r matches Some(x) && x@ == v,
            None => r is None,
        },
{
    let object = match cd.child(tag) {
        Some(x) => x,
        None => {
            return None;
        },
    };
    let avail = match object.attribute("avail") {
        Some(x) => x,
        None => {
            return None;
        },
    };
    let available = match read_bounded(avail.as_str(), 0xffff) {
        Some(n) => n as u16,
        None => {
            return None;
        },
    };
    proof {
        crate::xml::lemma_view_fields(object);
    }
    Some(CheckItem { name: object.text.clone(), available, reason: cd.child_text("reason") })
}

/// Reads the items of a `<chkData>` element.
pub fn read_check_data(chk: &XmlElement, tag: &str) -> (r: Option<Vec<CheckItem>>)
    ensures
        match check_data_of(chk@, tag@) {
            Some(v) => r matches Some(x) && check_items_view(x@) == v,
            None => r is None,
        },
{
    let cds = chk.children_named("cd");
    let ghost all = refs_view(cds@);
    let mut items: Vec<CheckItem> = Vec::new();
    let mut i: usize = 0;
    assert(all.skip(0) =~= all);
    assert(check_items_view(items@) =~= Seq::empty());
    while i < cds.len()
        invariant
            i <= cds@.len(),
            all == refs_view(cds@),
            check_data_of(chk@, tag@) == check_items_of(
                all.skip(i as int),
                tag@,
                check_items_view(items@),
            ),
        decreases cds@.len() - i,
    {
        let ghost before = check_items_view(items@);
        assert(all.skip(i as int)[0] == cds@[i as int]@);
        assert(all.skip(i as int).skip(1) =~= all.skip(i + 1));
        match read_check_item(cds[i], tag) {
            Some(item) => {
                let ghost v = item@;
                items.push(item);
                assert(check_items_view(items@) =~= before.push(v));
            },
            None => {
                return None;
            },
        }
        i = i + 1;
    }
    Some(items)
}

/// The data of a transfer, as a reply's `<trnData>` carries it.
#[derive(Debug)]
pub struct TransferData {
    /// The namespace declared on the element.
    pub xmlns: String,
    /// The name of the domain under transfer.
    pub name: String,
    /// The state of the transfer.
    pub transfer_status: String,
    /// The client that asked for the transfer.
    pub requester_id: String,
    /// When the transfer was asked for.
    pub requested_at: String,
    /// The client that is to answer the request.
    pub ack_id: String,
    /// By when the request is to be answered.
    pub ack_by: String,
    /// When the domain expires.
    pub expiring_at: Option<String>,
}

/// The mathematical value of transfer data.
pub struct TransferView {
    pub xmlns: Seq<char>,
    pub name: Seq<char>,
    pub transfer_status: Seq<char>,
    pub requester_id: Seq<char>,
    pub requested_at: Seq<char>,
    pub ack_id: Seq<char>,
    pub ack_by: Seq<char>,
    pub expiring_at: Option<Seq<char>>,
}

impl View for TransferData {
    type V = TransferView;

    open spec fn view(&self) -> TransferView {
        TransferView {
            xmlns: self.xmlns@,
            name: self.name@,
            transfer_status: self.transfer_status@,
            requester_id: self.requester_id@,
            requested_at: self.requested_at@,
            ack_id: self.ack_id@,
            ack_by: self.ack_by@,
            expiring_at: option_view(self.expiring_at),
        }
    }
}

/// The transfer data that a `<trnData>` element holds. The namespace is the
/// value of the attribute `xmlns_attribute`; the expiry date is optional,
/// everything else is required.
pub open spec fn transfer_data_of(trn: ElementView, xmlns_attribute: Seq<char>) -> Option<
    TransferView,
> {
    match (
        find_attribute(trn.attributes, xmlns_attribute),
        child_text(trn, "name"@),
        child_text(trn, "trStatus"@),
        child_text(trn, "reID"@),
        child_text(trn, "reDate"@),
        child_text(trn, "acID"@),
        child_text(trn, "acDate"@),
    ) {
        (
            Some(xmlns),
            Some(name),
            Some(transfer_status),
            Some(requester_id),
            Some(requested_at),
            Some(ack_id),
            Some(ack_by),
        ) => Some(
            TransferView {
                xmlns,
                name,
                transfer_status,
                requester_id,
                requested_at,
                ack_id,
                ack_by,
                expiring_at: child_text(trn, "exDate"@),
            },
        ),
        _ => None,
    }
}

/// Reads the transfer data of a `<trnData>` element.
pub fn read_transfer_data(trn: &XmlElement, xmlns_attribute: &str) -> (r: Option<TransferData>)
    ensures
        match transfer_data_of(trn@, xmlns_attribute@) {
            Some(v) => r matches Some(x) && x@ == v,
            None => r is None,
        },
{
    let xmlns = match trn.attribute(xmlns_attribute) {
        Some(x) => x.clone(),
        None => {
            return None;
        },
    };
    let name = match trn.child_text("name") {
        Some(x) => x,
        None => {
            return None;
        },
    };
    let transfer_status = match trn.child_text("trStatus") {
        Some(x) => x,
        None => {
            return None;
        },
    };
    let requester_id = match trn.child_text("reID") {
        Some(x) => x,
        None => {
            return None;
        },
    };
    let requested_at = match trn.child_text("reDate") {
        Some(x) => x,
        None => {
            return None;
        },
    };
    let ack_id = match trn.child_text("acID") {
        Some(x) => x,
        None => {
            return None;
        },
    };
    let ack_by = match trn.child_text("acDate") {
        Some(x) => x,
        None => {
            return None;
        },
    };
    let expiring_at = trn.child_text("exDate");
    Some(
        TransferData {
            xmlns,
            name,
            transfer_status,
            requester_id,
            requested_at,
            ack_id,
            ack_by,
            expiring_at,
        },
    )
}

} // verus!
