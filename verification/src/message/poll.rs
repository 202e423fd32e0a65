//! The `poll` command that asks for the next message, and its reply.

use crate::common::{FromXml, NoExtension, ToXml};
use crate::fields::{read_transfer_data, transfer_data_of, TransferView};
use crate::query::find_child;
use crate::request::Transaction;
use crate::xml::{attribute, element, ElementView, XmlElement};
use vstd::prelude::*;
use vstd::string::StringExecFns;

verus! {

/// The `poll` command that asks for the message at the head of the queue.
#[derive(Debug)]
pub struct MessagePoll {
    /// The operation: `req`.
    pub op: String,
}

impl MessagePoll {
    /// The request for the message at the head of the queue.
    pub fn new() -> (r: MessagePoll)
        ensures
            r.op@ == "req"@,
    {
        MessagePoll { op: String::from_str("req") }
    }
}

impl ToXml for MessagePoll {
    open spec fn xml(&self) -> ElementView {
        element("poll"@, seq![attribute("op"@, self.op@)], Seq::empty())
    }

    fn to_xml(&self) -> (e: XmlElement) {
        let mut e = XmlElement::new("poll");
        e.add_attribute("op", self.op.as_str());
        assert(e@.attributes =~= self.xml().attributes);
        e
    }
}

impl Transaction<NoExtension> for MessagePoll {
    type ExtensionWrapper = NoExtension;

    type Response = MessagePollResult;

    type ExtensionResponse = NoExtension;
}

/// The `<trnData>` of a message about a domain transfer.
#[derive(Debug)]
pub struct MessageDomainTransferData {
    /// The namespace declared as `xmlns:obj`.
    pub xmlns: String,
    /// The name of the domain under transfer.
    pub name: String,
    /// The state of the transfer.
    pub transfer_status: String,
    /// The client that asked for the transfer.
    pub requester_id: String,
    /// When the transfer was asked for.
    pub requested_at: String,
    /// The client that is to answer the request.
    pub ack_id: String,
    /// By when the request is to be answered.
    pub ack_by: String,
    /// When the domain expires.
    pub expiring_at: String,
}

impl View for MessageDomainTransferData {
    type V = TransferView;

    open spec fn view(&self) -> TransferView {
        TransferView {
            xmlns: self.xmlns@,
            name: self.name@,
            transfer_status: self.transfer_status@,
            requester_id: self.requester_id@,
            requested_at: self.requested_at@,
            ack_id: self.ack_id@,
            ack_by: self.ack_by@,
            expiring_at: Some(self.expiring_at@),
        }
    }
}

/// The `<resData>` of the reply to a poll.
#[derive(Debug)]
pub struct MessagePollResult {
    /// The data under `<trnData>`.
    pub message_data: MessageDomainTransferData,
}

/// The transfer data that a `<resData>` element holds in its `<trnData>`,
/// where it has all of it, the expiry date included.
pub open spec fn message_transfer_of(res_data: ElementView) -> Option<TransferView> {
    match find_child(res_data.children, "trnData"@) {
        None => None,
        Some(trn) => match transfer_data_of(trn, "xmlns:obj"@) {
            Some(v) => if v.expiring_at is Some {
                Some(v)
            } else {
                None
            },
            None => None,
        },
    }
}

impl FromXml for MessagePollResult {
    open spec fn decodable(e: ElementView) -> bool {
        message_transfer_of(e) is Some
    }

    open spec fn decodes(e: ElementView, v: MessagePollResult) -> bool {
        message_transfer_of(e) == Some(v.message_data@)
    }

    fn from_xml(e: &XmlElement) -> (r: Option<MessagePollResult>) {
        let trn = match e.child("trnData") {
            Some(x) => x,
            None => {
                return None;
            },
        };
        let d = match read_transfer_data(trn, "xmlns:obj") {
            Some(x) => x,
            None => {
                return None;
            },
        };
        let expiring_at = match d.expiring_at {
            Some(x) => x,
            None => {
                return None;
            },
        };
        Some(
            MessagePollResult {
                message_data: MessageDomainTransferData {
                    xmlns: d.xmlns,
                    name: d.name,
                    transfer_status: d.transfer_status,
                    requester_id: d.requester_id,
                    requested_at: d.requested_at,
                    ack_id: d.ack_id,
                    ack_by: d.ack_by,
                    expiring_at,
                },
            },
        )
    }
}

} // verus!
