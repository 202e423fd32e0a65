//! The request to restore a domain, sent as an extension of a domain
//! update, and the grace period states that a reply reports.

use crate::common::{Extension, FromXml, ToXml};
use crate::domain::update::DomainUpdate;
use crate::extensions::rgp::XMLNS;
use crate::query::{children_named, find_attribute, find_child, refs_view};
use crate::request::Transaction;
use crate::response::ReplyExtension;
use crate::xml::{attribute, element, ElementView, XmlElement};
use vstd::prelude::*;
use vstd::string::StringExecFns;

verus! {

/// The `<rgp:restore>` of a restore request.
#[derive(Debug)]
pub struct RgpRestoreRequestData {
    /// The `op` attribute.
    pub op: String,
}

/// The request to restore a domain.
#[derive(Debug)]
pub struct RgpRestoreRequest {
    /// The namespace of the extension.
    pub xmlns: String,
    /// The `<rgp:restore>` element.
    pub restore: RgpRestoreRequestData,
}

/// The `<rgp:update>` element around `<rgp:restore>` with its operation.
pub open spec fn restore_view(xmlns: Seq<char>, op: Seq<char>) -> ElementView {
    element(
        "rgp:update"@,
        seq![attribute("xmlns:rgp"@, xmlns)],
        seq![element("rgp:restore"@, seq![attribute("op"@, op)], Seq::empty())],
    )
}

impl RgpRestoreRequest {
    /// A restore request: the operation `request`.
    pub fn new() -> (r: RgpRestoreRequest)
        ensures
            r.xml() == restore_view(XMLNS@, "request"@),
    {
        RgpRestoreRequest {
            xmlns: String::from_str(XMLNS),
            restore: RgpRestoreRequestData { op: String::from_str("request") },
        }
    }
}

impl Default for RgpRestoreRequest {
    fn default() -> (r: RgpRestoreRequest)
        ensures
            r.xml() == restore_view(XMLNS@, "request"@),
    {
        RgpRestoreRequest::new()
    }
}

impl ToXml for RgpRestoreRequest {
    open spec fn xml(&self) -> ElementView {
        restore_view(self.xmlns@, self.restore.op@)
    }

    fn to_xml(&self) -> (e: XmlElement) {
        let ghost v = self.xml();
        let mut restore = XmlElement::new("rgp:restore");
        restore.add_attribute("op", self.restore.op.as_str());
        assert(restore@.attributes =~= v.children[0].attributes);
        let mut e = XmlElement::new("rgp:update");
        e.add_attribute("xmlns:rgp", self.xmlns.as_str());
        e.add_child(restore);
        assert(e@.attributes =~= v.attributes);
        assert(e@.children =~= v.children);
        e
    }
}

impl Transaction<RgpRestoreRequest> for DomainUpdate {
    type ExtensionWrapper = Extension<RgpRestoreRequest>;

    type Response = ();

    type ExtensionResponse = RgpRequestResponse;
}

/// One `<rgpStatus>` of a reply.
#[derive(Debug)]
pub struct RgpStatus {
    /// The grace period state: the `s` attribute.
    pub status: String,
}

/// The grace period data of a reply: `<rgp:upData>` in the reply to an
/// update, `<rgp:infData>` in the reply to a query.
#[derive(Debug)]
pub struct RgpRequestResponse {
    /// The namespace of the extension.
    pub xmlns: String,
    /// The states, one for each `<rgpStatus>`.
    pub rgp_status: Vec<RgpStatus>,
}

/// The states of a reply as plain values.
pub open spec fn statuses_view(v: Seq<RgpStatus>) -> Seq<Seq<char>> {
    Seq::new(v.len(), |i: int| v[i].status@)
}

/// The `s` attributes of the elements `es`, after those in `acc`; `None`
/// where one of them has none.
pub open spec fn statuses_of(es: Seq<ElementView>, acc: Seq<Seq<char>>) -> Option<Seq<Seq<char>>>
    decreases es.len(),
{
    if es.len() == 0 {
        Some(acc)
    } else {
        match find_attribute(es[0].attributes, "s"@) {
            Some(s) => statuses_of(es.skip(1), acc.push(s)),
            None => None,
        }
    }
}

/// The element of an `<extension>` that carries grace period data:
/// `<upData>`, or `<infData>` where there is no `<upData>`.
pub open spec fn rgp_data_of(extension: ElementView) -> Option<ElementView> {
    match find_child(extension.children, "upData"@) {
        Some(d) => Some(d),
        None => find_child(extension.children, "infData"@),
    }
}

/// What an `<extension>` element holds of grace periods: the namespace
/// declared on the data element and the states of its `<rgpStatus>`
/// children.
pub open spec fn rgp_of(extension: ElementView) -> Option<(Seq<char>, Seq<Seq<char>>)> {
    match rgp_data_of(extension) {
        None => None,
        Some(d) => match (
            find_attribute(d.attributes, "xmlns:rgp"@),
            statuses_of(children_named(d.children, "rgpStatus"@), Seq::empty()),
        ) {
            (Some(xmlns), Some(statuses)) => Some((xmlns, statuses)),
            _ => None,
        },
    }
}

impl FromXml for RgpRequestResponse {
    open spec fn decodable(e: ElementView) -> bool {
        rgp_of(e) is Some
    }

    open spec fn decodes(e: ElementView, v: RgpRequestResponse) -> bool {
        rgp_of(e) == Some((v.xmlns@, statuses_view(v.rgp_status@)))
    }

    #[verifier::loop_isolation(false)]
    fn from_xml(e: &XmlElement) -> (r: Option<RgpRequestResponse>) {
        let d = match e.child("upData") {
            Some(x) => x,
            None => match e.child("infData") {
                Some(x) => x,
                None => {
                    return None;
                },
            },
        };
        let xmlns = match d.attribute("xmlns:rgp") {
            Some(x) => x.clone(),
            None => {
                return None;
            },
        };
        let found = d.children_named("rgpStatus");
        let ghost all = refs_view(found@);
        let mut rgp_status: Vec<RgpStatus> = Vec::new();
        let mut i: usize = 0;
        assert(all.skip(0) =~= all);
        assert(statuses_view(rgp_status@) =~= Seq::empty());
        while i < found.len()
            invariant
                i <= found@.len(),
                all == refs_view(found@),
                statuses_of(all, Seq::empty()) == statuses_of(
                    all.skip(i as int),
                    statuses_view(rgp_status@),
                ),
            decreases found@.len() - i,
        {
            let ghost before = statuses_view(rgp_status@);
            assert(all.skip(i as int)[0] == found@[i as int]@);
            assert(all.skip(i as int).skip(1) =~= all.skip(i + 1));
            match found[i].attribute("s") {
                Some(s) => {
                    rgp_status.push(RgpStatus { status: s.clone() });
                    assert(statuses_view(rgp_status@) =~= before.push(s@));
                },
                None => {
                    return None;
                },
            }
            i = i + 1;
        }
        Some(RgpRequestResponse { xmlns, rgp_status })
    }
}

impl ReplyExtension for RgpRequestResponse {
    open spec fn declared() -> bool {
        true
    }

    fn is_declared() -> (b: bool) {
        true
    }
}

} // verus!
