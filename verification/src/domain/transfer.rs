//! The domain `transfer` command and its reply.

use crate::common::{FromXml, NoExtension, ToXml};
use crate::domain::XMLNS;
use crate::fields::{read_transfer_data, transfer_data_of, TransferView};
use crate::query::find_child;
use crate::request::Transaction;
use crate::response::option_view;
use crate::text::{decimal_string, decimal_text};
use crate::xml::{attribute, element, text_element, ElementView, XmlElement};
use vstd::prelude::*;
use vstd::string::StringExecFns;

verus! {

/// A registration period, in years.
#[derive(Debug)]
pub struct Period {
    /// The unit of the period.
    pub unit: String,
    /// The length of the period.
    pub length: u16,
}

impl Period {
    /// A period of `length` years.
    pub fn new(length: u16) -> (r: Period)
        ensures
            r.unit@ == "y"@,
            r.length == length,
    {
        Period { unit: String::from_str("y"), length }
    }
}

/// The authorisation information of a domain.
#[derive(Debug)]
pub struct DomainAuthInfo {
    /// The password.
    pub password: String,
}

impl DomainAuthInfo {
    /// The authorisation by `password`.
    pub fn new(password: &str) -> (r: DomainAuthInfo)
        ensures
            r.password@ == password@,
    {
        DomainAuthInfo { password: String::from_str(password) }
    }
}

/// The `<domain:period>` element.
pub open spec fn period_view(unit: Seq<char>, length: int) -> ElementView {
    ElementView {
        name: "domain:period"@,
        attributes: seq![attribute("unit"@, unit)],
        text: decimal_text(length as nat),
        children: Seq::empty(),
    }
}

/// The `<domain:authInfo>` element.
pub open spec fn auth_info_view(password: Seq<char>) -> ElementView {
    element("domain:authInfo"@, Seq::empty(), seq![text_element("domain:pw"@, password)])
}

/// The view of an optional period: its unit and length.
pub open spec fn option_period_view(p: Option<Period>) -> Option<(Seq<char>, int)> {
    match p {
        Some(x) => Some((x.unit@, x.length as int)),
        None => None,
    }
}

/// The view of optional authorisation information: its password.
pub open spec fn option_auth_view(a: Option<DomainAuthInfo>) -> Option<Seq<char>> {
    match a {
        Some(x) => Some(x.password@),
        None => None,
    }
}

/// The `<transfer>` element: the operation as its `op` attribute, and the
/// domain's name, the period and the authorisation information, where
/// present, inside `<domain:transfer>`.
pub open spec fn transfer_view(
    operation: Seq<char>,
    xmlns: Seq<char>,
    name: Seq<char>,
    period: Option<(Seq<char>, int)>,
    auth_info: Option<Seq<char>>,
) -> ElementView {
    element(
        "transfer"@,
        seq![attribute("op"@, operation)],
        seq![
            element(
                "domain:transfer"@,
                seq![attribute("xmlns:domain"@, xmlns)],
                seq![text_element("domain:name"@, name)] + (match period {
                    Some((unit, length)) => seq![period_view(unit, length)],
                    None => Seq::empty(),
                }) + (match auth_info {
                    Some(password) => seq![auth_info_view(password)],
                    None => Seq::empty(),
                }),
            ),
        ],
    )
}

/// What stands under the `<transfer>` element of a domain transfer.
#[derive(Debug)]
pub struct DomainTransferReqData {
    /// The namespace of domain objects.
    pub xmlns: String,
    /// The name of the domain under transfer.
    pub name: String,
    /// The period to add on a successful transfer; for requests only.
    pub period: Option<Period>,
    /// The authorisation information; for requests and queries only.
    pub auth_info: Option<DomainAuthInfo>,
}

/// The domain `transfer` command.
#[derive(Debug)]
pub struct DomainTransfer {
    /// The operation: `request`, `query`, `approve`, `reject` or `cancel`.
    pub operation: String,
    /// The data under `<transfer>`.
    pub domain: DomainTransferReqData,
}

impl DomainTransfer {
    /// A request to transfer `name`, adding `years` if given, authorised
    /// by `auth_password`.
    pub fn new(name: &str, years: Option<u16>, auth_password: &str) -> (r: DomainTransfer)
        ensures
            r.xml() == transfer_view(
                "request"@,
                XMLNS@,
                name@,
                match years {
                    Some(y) => Some(("y"@, y as int)),
                    None => None,
                },
                Some(auth_password@),
            ),
    {
        let period = match years {
            Some(y) => Some(Period::new(y)),
            None => None,
        };
        DomainTransfer {
            operation: String::from_str("request"),
            domain: DomainTransferReqData {
                xmlns: String::from_str(XMLNS),
                name: String::from_str(name),
                period,
                auth_info: Some(DomainAuthInfo::new(auth_password)),
            },
        }
    }

    /// A query for the state of the transfer of `name`.
    pub fn query(name: &str, auth_password: &str) -> (r: DomainTransfer)
        ensures
            r.xml() == transfer_view("query"@, XMLNS@, name@, None, Some(auth_password@)),
    {
        DomainTransfer {
            operation: String::from_str("query"),
            domain: DomainTransferReqData {
                xmlns: String::from_str(XMLNS),
                name: String::from_str(name),
                period: None,
                auth_info: Some(DomainAuthInfo::new(auth_password)),
            },
        }
    }

    /// The approval of the transfer of `name`.
    pub fn approve(name: &str) -> (r: DomainTransfer)
        ensures
            r.xml() == transfer_view("approve"@, XMLNS@, name@, None, None),
    {
        DomainTransfer {
            operation: String::from_str("approve"),
            domain: DomainTransferReqData {
                xmlns: String::from_str(XMLNS),
                name: String::from_str(name),
                period: None,
                auth_info: None,
            },
        }
    }

    /// The rejection of the transfer of `name`.
    pub fn reject(name: &str) -> (r: DomainTransfer)
        ensures
            r.xml() == transfer_view("reject"@, XMLNS@, name@, None, None),
    {
        DomainTransfer {
            operation: String::from_str("reject"),
            domain: DomainTransferReqData {
                xmlns: String::from_str(XMLNS),
                name: String::from_str(name),
                period: None,
                auth_info: None,
            },
        }
    }

    /// The cancellation of the transfer of `name`.
    pub fn cancel(name: &str) -> (r: DomainTransfer)
        ensures
            r.xml() == transfer_view("cancel"@, XMLNS@, name@, None, None),
    {
        DomainTransfer {
            operation: String::from_str("cancel"),
            domain: DomainTransferReqData {
                xmlns: String::from_str(XMLNS),
                name: String::from_str(name),
                period: None,
                auth_info: None,
            },
        }
    }
}

impl ToXml for DomainTransfer {
    open spec fn xml(&self) -> ElementView {
        transfer_view(
            self.operation@,
            self.domain.xmlns@,
            self.domain.name@,
            option_period_view(self.domain.period),
            option_auth_view(self.domain.auth_info),
        )
    }

    fn to_xml(&self) -> (e: XmlElement) {
        let ghost v = self.xml();
        let mut inner = XmlElement::new("domain:transfer");
        inner.add_attribute("xmlns:domain", self.domain.xmlns.as_str());
        inner.add_child(XmlElement::with_text("domain:name", self.domain.name.as_str()));
        match &self.domain.period {
            Some(p) => {
                let length = decimal_string(p.length as u64);
                let mut period = XmlElement::with_text("domain:period", length.as_str());
                period.add_attribute("unit", p.unit.as_str());
                assert(period@.attributes =~= period_view(p.unit@, p.length as int).attributes);
                inner.add_child(period);
            },
            None => {},
        }
        match &self.domain.auth_info {
            Some(a) => {
                let mut auth = XmlElement::new("domain:authInfo");
                auth.add_child(XmlElement::with_text("domain:pw", a.password.as_str()));
                assert(auth@.children =~= auth_info_view(a.password@).children);
                inner.add_child(auth);
            },
            None => {},
        }
        assert(inner@.attributes =~= v.children[0].attributes);
        assert(inner@.children =~= v.children[0].children);
        let mut e = XmlElement::new("transfer");
        e.add_attribute("op", self.operation.as_str());
        e.add_child(inner);
        assert(e@.attributes =~= v.attributes);
        assert(e@.children =~= v.children);
        e
    }
}

impl Transaction<NoExtension> for DomainTransfer {
    type ExtensionWrapper = NoExtension;

    type Response = DomainTransferResponse;

    type ExtensionResponse = NoExtension;
}

/// The `<trnData>` of the reply to a domain transfer.
#[derive(Debug)]
pub struct DomainTransferResponseData {
    /// The namespace of domain objects.
    pub xmlns: String,
    /// The name of the domain.
    pub name: String,
    /// The state of the transfer.
    pub transfer_status: String,
    /// The client that asked for the transfer.
    pub requester_id: String,
    /// When the transfer was asked for.
    pub requested_at: String,
    /// The client that is to answer the request.
    pub ack_id: String,
    /// By when the request is to be answered.
    pub ack_by: String,
    /// When the domain expires.
    pub expiring_at: Option<String>,
}

impl View for DomainTransferResponseData {
    type V = TransferView;

    open spec fn view(&self) -> TransferView {
        TransferView {
            xmlns: self.xmlns@,
            name: self.name@,
            transfer_status: self.transfer_status@,
            requester_id: self.requester_id@,
            requested_at: self.requested_at@,
            ack_id: self.ack_id@,
            ack_by: self.ack_by@,
            expiring_at: option_view(self.expiring_at),
        }
    }
}

/// The `<resData>` of the reply to a domain transfer.
#[derive(Debug)]
pub struct DomainTransferResponse {
    /// The data under `<trnData>`.
    pub transfer_data: DomainTransferResponseData,
}

/// The transfer data that a `<resData>` element holds in its `<trnData>`.
pub open spec fn domain_transfer_of(res_data: ElementView) -> Option<TransferView> {
    match find_child(res_data.children, "trnData"@) {
        Some(trn) => transfer_data_of(trn, "xmlns:domain"@),
        None => None,
    }
}

impl FromXml for DomainTransferResponse {
    open spec fn decodable(e: ElementView) -> bool {
        domain_transfer_of(e) is Some
    }

    open spec fn decodes(e: ElementView, v: DomainTransferResponse) -> bool {
        domain_transfer_of(e) == Some(v.transfer_data@)
    }

    fn from_xml(e: &XmlElement) -> (r: Option<DomainTransferResponse>) {
        let trn = match e.child("trnData") {
            Some(x) => x,
            None => {
                return None;
            },
        };
        match read_transfer_data(trn, "xmlns:domain") {
            Some(d) => Some(
                DomainTransferResponse {
                    transfer_data: DomainTransferResponseData {
                        xmlns: d.xmlns,
                        name: d.name,
                        transfer_status: d.transfer_status,
                        requester_id: d.requester_id,
                        requested_at: d.requested_at,
                        ack_id: d.ack_id,
                        ack_by: d.ack_by,
                        expiring_at: d.expiring_at,
                    },
                },
            ),
            None => None,
        }
    }
}

} // verus!
