//! The `poll` command that acknowledges a message.

use crate::common::{NoExtension, ToXml};
use crate::request::Transaction;
use crate::text::{decimal_string, decimal_text};
use crate::xml::{attribute, element, ElementView, XmlElement};
use vstd::prelude::*;
use vstd::string::StringExecFns;

verus! {

/// The `poll` command that acknowledges a message.
#[derive(Debug)]
pub struct MessageAck {
    /// The operation: `ack`.
    pub op: String,
    /// The identifier of the message that is acknowledged.
    pub message_id: String,
}

/// The `<poll>` element with an operation and a message identifier.
pub open spec fn poll_view(op: Seq<char>, message_id: Seq<char>) -> ElementView {
    element(
        "poll"@,
        seq![attribute("op"@, op), attribute("msgID"@, message_id)],
        Seq::empty(),
    )
}

impl MessageAck {
    /// The acknowledgement of the message `message_id`.
    pub fn new(message_id: u32) -> (r: MessageAck)
        ensures
            r.xml() == poll_view("ack"@, decimal_text(message_id as nat)),
    {
        MessageAck { op: String::from_str("ack"), message_id: decimal_string(message_id as u64) }
    }
}

impl ToXml for MessageAck {
    open spec fn xml(&self) -> ElementView {
        poll_view(self.op@, self.message_id@)
    }

    fn to_xml(&self) -> (e: XmlElement) {
        let mut e = XmlElement::new("poll");
        e.add_attribute("op", self.op.as_str());
        e.add_attribute("msgID", self.message_id.as_str());
        assert(e@.attributes =~= self.xml().attributes);
        e
    }
}

impl Transaction<NoExtension> for MessageAck {
    type ExtensionWrapper = NoExtension;

    type Response = String;

    type ExtensionResponse = NoExtension;
}

} // verus!
