//! The reply to a command: its result, transaction identifiers, message
//! queue, and typed payloads.

use crate::common::{Error, Extension, FromXml, NoExtension};
use crate::query::{child_text, find_attribute, find_child, local_name};
use crate::text::{chars_of, decimal_value, is_decimal, parse_decimal};
use crate::xml::{lemma_view_fields, ElementView, XmlElement};
use vstd::prelude::*;

verus! {

/// The `<result>` of a reply.
#[derive(Debug)]
pub struct EppResult {
    /// The result code.
    pub code: u16,
    /// The human-readable message.
    pub message: String,
    /// The language of the message, where the server names it.
    pub lang: Option<String>,
}

/// The `<trID>` of a reply.
#[derive(Debug)]
pub struct ResponseTRID {
    /// The client's transaction identifier, as echoed by the server.
    pub client_tr_id: Option<String>,
    /// The server's transaction identifier.
    pub server_tr_id: String,
}

/// The `<msgQ>` of a reply.
#[derive(Debug)]
pub struct MessageQueue {
    /// The number of messages in the queue.
    pub count: u32,
    /// The identifier of the message at the head of the queue.
    pub id: String,
    /// The date of the message.
    pub date: Option<String>,
    /// The text of the message.
    pub message: Option<String>,
}

/// What a reply says of the command's outcome.
#[derive(Debug)]
pub struct ResponseStatus {
    pub result: EppResult,
    pub tr_ids: ResponseTRID,
}

/// A reply to a command with its typed payloads.
#[derive(Debug)]
pub struct Response<D, E> {
    pub result: EppResult,
    pub message_queue: Option<MessageQueue>,
    pub res_data: Option<D>,
    pub extension: Option<Extension<E>>,
    pub tr_ids: ResponseTRID,
}

impl<D, E> Response<D, E> {
    /// The payload of `<resData>`, if the reply has one.
    pub fn res_data(&self) -> (r: Option<&D>)
        ensures
            match self.res_data {
                Some(d) => r == Some(&d),
                None => r is None,
            },
    {
        self.res_data.as_ref()
    }

    /// The message queue, if the reply has one.
    pub fn message_queue(&self) -> (r: Option<&MessageQueue>)
        ensures
            match self.message_queue {
                Some(q) => r == Some(&q),
                None => r is None,
            },
    {
        self.message_queue.as_ref()
    }
}

/// Whether a result code reports success.
pub open spec fn is_success(code: int) -> bool {
    1000 <= code < 2000
}

/// The mathematical value of a reply's status.
pub struct StatusView {
    pub code: int,
    pub message: Seq<char>,
    pub lang: Option<Seq<char>>,
    pub client_tr_id: Option<Seq<char>>,
    pub server_tr_id: Seq<char>,
}

/// The mathematical value of a message queue.
pub struct QueueView {
    pub count: int,
    pub id: Seq<char>,
    pub date: Option<Seq<char>>,
    pub message: Option<Seq<char>>,
}

/// The view of an optional string.
pub open spec fn option_view(s: Option<String>) -> Option<Seq<char>> {
    match s {
        Some(x) => Some(x@),
        None => None,
    }
}

impl View for ResponseStatus {
    type V = StatusView;

    open spec fn view(&self) -> StatusView {
        StatusView {
            code: self.result.code as int,
            message: self.result.message@,
            lang: option_view(self.result.lang),
            client_tr_id: option_view(self.tr_ids.client_tr_id),
            server_tr_id: self.tr_ids.server_tr_id@,
        }
    }
}

impl View for MessageQueue {
    type V = QueueView;

    open spec fn view(&self) -> QueueView {
        QueueView {
            count: self.count as int,
            id: self.id@,
            date: option_view(self.date),
            message: option_view(self.message),
        }
    }
}

/// The number that `s` denotes where it is a decimal number not above `max`.
pub open spec fn bounded_decimal(s: Seq<char>, max: int) -> Option<int> {
    if is_decimal(s) && decimal_value(s) <= max {
        Some(decimal_value(s) as int)
    } else {
        None
    }
}

/// The `<response>` element of a document whose root is `<epp>`.
pub open spec fn response_of(root: ElementView) -> Option<ElementView> {
    if local_name(root.name) == "epp"@ {
        find_child(root.children, "response"@)
    } else {
        None
    }
}

/// The status that a `<response>` element carries: the code and message of
/// its `<result>`, the `lang` attribute of the message, and the identifiers
/// of its `<trID>`. `None` where the result, its code (a decimal number of
/// 16 bits), its message, the identifiers or the server's identifier are
/// missing.
pub open spec fn status_of(response: ElementView) -> Option<StatusView> {
    match (find_child(response.children, "result"@), find_child(response.children, "trID"@)) {
        (Some(result), Some(ids)) => match (
            find_attribute(result.attributes, "code"@),
            find_child(result.children, "msg"@),
            child_text(ids, "svTRID"@),
        ) {
            (Some(code), Some(msg), Some(server_tr_id)) => match bounded_decimal(
                code,
                u16::MAX as int,
            ) {
                Some(n) => Some(
                    StatusView {
                        code: n,
                        message: msg.text,
                        lang: find_attribute(msg.attributes, "lang"@),
                        client_tr_id: child_text(ids, "clTRID"@),
                        server_tr_id,
                    },
                ),
                None => None,
            },
            _ => None,
        },
        _ => None,
    }
}

/// The message queue of a `<response>` element: `Ok(None)` where it has no
/// `<msgQ>`, `Err` where the `<msgQ>` lacks its `id` or a `count` of 32 bits.
pub open spec fn queue_of(response: ElementView) -> Result<Option<QueueView>, ()> {
    match find_child(response.children, "msgQ"@) {
        None => Ok(None),
        Some(q) => match (find_attribute(q.attributes, "count"@), find_attribute(
            q.attributes,
            "id"@,
        )) {
            (Some(count), Some(id)) => match bounded_decimal(count, u32::MAX as int) {
                Some(n) => Ok(
                    Some(
                        QueueView {
                            count: n,
                            id,
                            date: child_text(q, "qDate"@),
                            message: child_text(q, "msg"@),
                        },
                    ),
                ),
                None => Err(()),
            },
            _ => Err(()),
        },
    }
}

/// A type that can stand as the extension payload of a reply.
pub trait ReplyExtension: FromXml {
    /// Whether replies of this kind may carry an `<extension>` at all.
    spec fn declared() -> bool;

    fn is_declared() -> (b: bool)
        ensures
            b == Self::declared(),
    ;
}

impl FromXml for NoExtension {
    open spec fn decodable(e: ElementView) -> bool {
        false
    }

    open spec fn decodes(e: ElementView, v: NoExtension) -> bool {
        false
    }

    fn from_xml(e: &XmlElement) -> (r: Option<NoExtension>) {
        None
    }
}

impl ReplyExtension for NoExtension {
    open spec fn declared() -> bool {
        false
    }

    fn is_declared() -> (b: bool) {
        false
    }
}

/// Whether `v` is the successful reply that the `<response>` element holds.
pub open spec fn response_matches<D: FromXml, E: ReplyExtension>(
    response: ElementView,
    v: Response<D, E>,
) -> bool {
    &&& status_of(response) == Some(
        (ResponseStatus { result: v.result, tr_ids: v.tr_ids })@,
    )
    &&& match queue_of(response) {
        Ok(Some(q)) => v.message_queue matches Some(m) && m@ == q,
        _ => v.message_queue is None,
    }
    &&& match find_child(response.children, "resData"@) {
        Some(d) => v.res_data matches Some(x) && D::decodes(d, x),
        None => v.res_data is None,
    }
    &&& match find_child(response.children, "extension"@) {
        Some(x) => v.extension matches Some(w) && E::decodes(x, w.data),
        None => v.extension is None,
    }
}

/// Whether `r` is what reading the `<response>` element gives.
///
/// A result code outside the 1xxx band gives `EppCommandError` with the
/// reply's status, whatever else the reply holds. A code in the band gives
/// the typed reply, unless the message queue is malformed (`Protocol`), an
/// extension arrives where none is declared (`UnknownExtension`), or a
/// payload is not of the declared type (`Xml`).
pub open spec fn response_read<D: FromXml, E: ReplyExtension>(
    response: ElementView,
    r: Result<Response<D, E>, Error>,
) -> bool {
    match status_of(response) {
        None => r matches Err(Error::Protocol),
        Some(status) => if !is_success(status.code) {
            r matches Err(Error::EppCommandError(s)) && s@ == status
        } else if queue_of(response) is Err {
            r matches Err(Error::Protocol)
        } else if find_child(response.children, "extension"@) is Some && !E::declared() {
            r matches Err(Error::UnknownExtension)
        } else if (find_child(response.children, "resData"@) matches Some(d) && !D::decodable(d))
            || (find_child(response.children, "extension"@) matches Some(x) && !E::decodable(
            x,
        )) {
            r matches Err(Error::Xml)
        } else {
            r matches Ok(v) && response_matches(response, v)
        },
    }
}

/// Whether `r` is what reading the reply `text` gives: `Xml` for text that
/// is no XML document, `Protocol` for a document without `<epp>` and
/// `<response>`, and otherwise what `response_read` says.
pub open spec fn deserialized<D: FromXml, E: ReplyExtension>(
    text: Seq<char>,
    r: Result<Response<D, E>, Error>,
) -> bool {
    match crate::reader::parse_document(text) {
        None => r matches Err(Error::Xml),
        Some(root) => match response_of(root) {
            None => r matches Err(Error::Protocol),
            Some(response) => response_read(response, r),
        },
    }
}

/// Reads the decimal number that `s` holds, if it is one and not above `max`.
pub fn read_bounded(s: &str, max: u32) -> (r: Option<u32>)
    ensures
        match bounded_decimal(s@, max as int) {
            Some(n) => r == Some(n as u32),
            None => r is None,
        },
{
    let chars = chars_of(s);
    match parse_decimal(chars.as_slice()) {
        Some(n) => if n <= max {
            Some(n)
        } else {
            None
        },
        None => None,
    }
}

/// Reads the status of a `<response>` element.
pub fn read_status(response: &XmlElement) -> (r: Option<ResponseStatus>)
    ensures
        match status_of(response@) {
            Some(s) => r matches Some(x) && x@ == s,
            None => r is None,
        },
{
    let result = match response.child("result") {
        Some(x) => x,
        None => {
            return None;
        },
    };
    let ids = match response.child("trID") {
        Some(x) => x,
        None => {
            return None;
        },
    };
    let code_text = match result.attribute("code") {
        Some(x) => x,
        None => {
            return None;
        },
    };
    let msg = match result.child("msg") {
        Some(x) => x,
        None => {
            return None;
        },
    };
    let server_tr_id = match ids.child_text("svTRID") {
        Some(x) => x,
        None => {
            return None;
        },
    };
    let code = match read_bounded(code_text.as_str(), 0xffff) {
        Some(n) => n as u16,
        None => {
            return None;
        },
    };
    let client_tr_id = ids.child_text("clTRID");
    let lang = match msg.attribute("lang") {
        Some(x) => Some(x.clone()),
        None => None,
    };
    proof {
        lemma_view_fields(msg);
    }
    Some(
        ResponseStatus {
            result: EppResult { code, message: msg.text.clone(), lang },
            tr_ids: ResponseTRID { client_tr_id, server_tr_id },
        },
    )
}

/// Reads the message queue of a `<response>` element.
pub fn read_queue(response: &XmlElement) -> (r: Result<Option<MessageQueue>, ()>)
    ensures
        match queue_of(response@) {
            Ok(Some(q)) => r matches Ok(Some(x)) && x@ == q,
            Ok(None) => r matches Ok(None),
            Err(_) => r is Err,
        },
{
    let q = match response.child("msgQ") {
        Some(x) => x,
        None => {
            return Ok(None);
        },
    };
    let count_text = match q.attribute("count") {
        Some(x) => x,
        None => {
            return Err(());
        },
    };
    let id = match q.attribute("id") {
        Some(x) => x.clone(),
        None => {
            return Err(());
        },
    };
    let count = match read_bounded(count_text.as_str(), 0xffff_ffff) {
        Some(n) => n,
        None => {
            return Err(());
        },
    };
    let date = q.child_text("qDate");
    let message = q.child_text("msg");
    Ok(Some(MessageQueue { count, id, date, message }))
}

/// Reads a `<response>` element as the reply to a command whose payloads
/// are of the types `D` and `E`.
pub fn read_response<D: FromXml, E: ReplyExtension>(response: &XmlElement) -> (r: Result<
    Response<D, E>,
    Error,
>)
    ensures
        response_read(response@, r),
{
    let status = match read_status(response) {
        Some(s) => s,
        None => {
            return Err(Error::Protocol);
        },
    };
    if status.result.code < 1000 || status.result.code >= 2000 {
        return Err(Error::EppCommandError(status));
    }
    let message_queue = match read_queue(response) {
        Ok(q) => q,
        Err(_) => {
            return Err(Error::Protocol);
        },
    };
    let extension_element = response.child("extension");
    if extension_element.is_some() && !E::is_declared() {
        return Err(Error::UnknownExtension);
    }
    let res_data = match response.child("resData") {
        None => None,
        Some(d) => match D::from_xml(d) {
            Some(v) => Some(v),
            None => {
                return Err(Error::Xml);
            },
        },
    };
    let extension = match extension_element {
        None => None,
        Some(x) => match E::from_xml(x) {
            Some(v) => Some(Extension { data: v }),
            None => {
                return Err(Error::Xml);
            },
        },
    };
    Ok(
        Response {
            result: status.result,
            message_queue,
            res_data,
            extension,
            tr_ids: status.tr_ids,
        },
    )
}

/// Reads the reply `epp_xml` to a command whose payloads are of the types
/// `D` and `E`.
pub fn deserialize_response<D: FromXml, E: ReplyExtension>(epp_xml: &str) -> (r: Result<
    Response<D, E>,
    Error,
>)
    ensures
        deserialized(epp_xml@, r),
{
    let root = match crate::reader::read_document(epp_xml) {
        Some(x) => x,
        None => {
            return Err(Error::Xml);
        },
    };
    if !crate::query::has_local_name(root.name.as_str(), "epp") {
        proof {
            lemma_view_fields(&root);
        }
        return Err(Error::Protocol);
    }
    proof {
        lemma_view_fields(&root);
    }
    match root.child("response") {
        Some(response) => read_response(response),
        None => Err(Error::Protocol),
    }
}

/// Result-code dispatch: a reply whose code lies in the 1xxx band and whose
/// parts are of the declared types is read as a success value that carries
/// the reply's code and message; a reply whose code is 2000 or above is
/// read as `EppCommandError` with that code and message, whatever else it
/// holds.
pub proof fn lemma_result_code_dispatch<D: FromXml, E: ReplyExtension>(
    response: ElementView,
    status: StatusView,
    r: Result<Response<D, E>, Error>,
)
    requires
        status_of(response) == Some(status),
        response_read(response, r),
    ensures
        status.code >= 2000 ==> (r matches Err(Error::EppCommandError(s)) && s.result.code
            == status.code && s.result.message@ == status.message),
        (is_success(status.code) && queue_of(response) is Ok && (find_child(
            response.children,
            "resData"@,
        ) matches Some(d) ==> D::decodable(d)) && (find_child(
            response.children,
            "extension"@,
        ) matches Some(x) ==> E::declared() && E::decodable(x))) ==> (r matches Ok(v)
            && v.result.code == status.code && v.result.message@ == status.message),
        r is Ok ==> is_success(status.code),
{
}

} // verus!
