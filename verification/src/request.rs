//! The command envelope: how a typed request, an optional extension and a
//! client transaction identifier become one XML document.

use crate::canon::writable;
use crate::common::{Error, FromXml, NoExtension, ToXml, Wraps};
use crate::query::{find_child, local_name};
use crate::reader::{parse_document, CharClass};
use crate::response::{deserialized, ReplyExtension, Response};
use crate::xml::{render, text_element, AttributeView, ElementView, XmlElement};
use vstd::prelude::*;
use vstd::string::StringExecFns;

verus! {

/// The protocol version that a login advertises.
pub const EPP_VERSION: &'static str = "1.0";

/// The language that a login advertises.
pub const EPP_LANG: &'static str = "en";

/// The namespace of the `<epp>` element.
pub const EPP_XMLNS: &'static str = "urn:ietf:params:xml:ns:epp-1.0";

/// The declaration that every document starts with, and the line break
/// behind it.
pub const EPP_XML_HEADER: &'static str = "<?xml version=\"1.0\" encoding=\"UTF-8\" standalone=\"no\"?>\r\n";

/// The `<command>` element: the request, the `<extension>` element where
/// there is one, and the client transaction identifier, in this order.
pub open spec fn command_view(
    command: ElementView,
    extension: Option<ElementView>,
    client_tr_id: Seq<char>,
) -> ElementView {
    ElementView {
        name: "command"@,
        attributes: Seq::empty(),
        text: Seq::empty(),
        children: match extension {
            Some(x) => seq![command, x, text_element("clTRID"@, client_tr_id)],
            None => seq![command, text_element("clTRID"@, client_tr_id)],
        },
    }
}

/// The `<epp>` element around `body`.
pub open spec fn epp_view(body: ElementView) -> ElementView {
    ElementView {
        name: "epp"@,
        attributes: seq![AttributeView { name: "xmlns"@, value: EPP_XMLNS@ }],
        text: Seq::empty(),
        children: seq![body],
    }
}

/// A document as sent: the declaration, then the root element.
pub open spec fn document_text(root: ElementView) -> Seq<char> {
    EPP_XML_HEADER@ + render(root)
}

/// Whether `r` is what writing the document with the root `root` gives: the
/// document's text where the root is well formed and nested no deeper than
/// the reader accepts, and `Xml` where it is not.
pub open spec fn document_written(root: ElementView, r: Result<String, Error>) -> bool {
    if writable(root) {
        r matches Ok(s) && s@ == document_text(root)
    } else {
        r matches Err(Error::Xml)
    }
}

/// The `<extension>` element that `W` makes of an optional extension.
pub open spec fn wrapped_option<Ext, W: Wraps<Ext>>(extension: Option<Ext>) -> Option<ElementView> {
    match extension {
        Some(x) => W::wrapped(x),
        None => None,
    }
}

/// The `<epp>` element around `body`.
pub fn epp_element(body: XmlElement) -> (e: XmlElement)
    ensures
        e@ == epp_view(body@),
{
    let mut e = XmlElement::new("epp");
    e.add_attribute("xmlns", EPP_XMLNS);
    e.add_child(body);
    assert(e@.attributes =~= epp_view(body@).attributes);
    assert(e@.children =~= epp_view(body@).children);
    e
}

/// Writes the document with the root `root`.
pub fn write_document(root: &XmlElement) -> (r: Result<String, Error>)
    ensures
        document_written(root@, r),
{
    if !root.is_writable() {
        return Err(Error::Xml);
    }
    let mut out = String::from_str(EPP_XML_HEADER);
    root.write(&mut out);
    Ok(out)
}

/// A command with its extension and client transaction identifier.
#[derive(Debug)]
pub struct Command<C, W> {
    /// The request.
    pub command: C,
    /// The extension, wrapped as the request asks.
    pub extension: Option<W>,
    /// The client transaction identifier.
    pub client_tr_id: String,
}

impl<C: ToXml, W> Command<C, W> {
    /// The `<extension>` element of the command, if it has one.
    pub open spec fn extension_wire<Ext>(&self) -> Option<ElementView> where W: Wraps<Ext> {
        match self.extension {
            Some(w) => w.wire(),
            None => None,
        }
    }

    /// The `<command>` element.
    pub fn serialize<Ext>(&self) -> (e: XmlElement) where W: Wraps<Ext>
        ensures
            e@ == command_view(
                self.command.xml(),
                self.extension_wire::<Ext>(),
                self.client_tr_id@,
            ),
    {
        let mut e = XmlElement::new("command");
        e.add_child(self.command.to_xml());
        let wire = match &self.extension {
            Some(w) => w.to_wire(),
            None => None,
        };
        match wire {
            Some(x) => {
                e.add_child(x);
            },
            None => {},
        }
        e.add_child(XmlElement::with_text("clTRID", self.client_tr_id.as_str()));
        assert(e@.children =~= command_view(
            self.command.xml(),
            self.extension_wire::<Ext>(),
            self.client_tr_id@,
        ).children);
        e
    }
}

/// What binds a request type to an extension type: how the extension is
/// wrapped for the wire, and the types of the reply's payloads.
pub trait Transaction<Ext>: ToXml + Sized {
    /// How the extension is placed inside `<extension>`.
    type ExtensionWrapper: Wraps<Ext>;

    /// The payload of the reply's `<resData>`.
    type Response: FromXml;

    /// The payload of the reply's `<extension>`.
    type ExtensionResponse: ReplyExtension;

    /// Writes the request, with its extension and the client transaction
    /// identifier, as one document.
    fn serialize_request(self, extension: Option<Ext>, client_tr_id: &str) -> (r: Result<
        String,
        Error,
    >)
        ensures
            document_written(
                epp_view(
                    command_view(
                        self.xml(),
                        wrapped_option::<Ext, Self::ExtensionWrapper>(extension),
                        client_tr_id@,
                    ),
                ),
                r,
            ),
    {
        let wrapped: Option<Self::ExtensionWrapper> = match extension {
            Some(x) => Some(Self::ExtensionWrapper::wrap(x)),
            None => None,
        };
        let command = Command {
            command: self,
            extension: wrapped,
            client_tr_id: String::from_str(client_tr_id),
        };
        let root = epp_element(command.serialize::<Ext>());
        write_document(&root)
    }

    /// Reads the reply to a request of this type.
    fn deserialize_response(epp_xml: &str) -> (r: Result<
        Response<Self::Response, Self::ExtensionResponse>,
        Error,
    >)
        ensures
            deserialized(epp_xml@, r),
    {
        crate::response::deserialize_response(epp_xml)
    }
}

/// The request, the `<extension>` element and the client transaction
/// identifier that the document with the root `root` carries.
pub open spec fn envelope_parts(root: ElementView) -> (ElementView, Option<ElementView>, Seq<char>) {
    let command = root.children[0];
    (
        command.children[0],
        if command.children.len() == 3 {
            Some(command.children[1])
        } else {
            None
        },
        command.children.last().text,
    )
}

/// Envelope round trip: reading a document that was written for a request,
/// an extension and a client transaction identifier gives a document that
/// carries the same request, the same extension and the same identifier.
pub proof fn lemma_envelope_round_trip(
    command: ElementView,
    extension: Option<ElementView>,
    client_tr_id: Seq<char>,
    r: Result<String, Error>,
)
    requires
        document_written(epp_view(command_view(command, extension, client_tr_id)), r),
        r is Ok,
    ensures
        parse_document(r->Ok_0@) == Some(
            epp_view(command_view(command, extension, client_tr_id)),
        ),
        parse_document(r->Ok_0@) matches Some(root) && envelope_parts(root) == (
            command,
            extension,
            client_tr_id,
        ),
{
    let root = epp_view(command_view(command, extension, client_tr_id));
    crate::canon::lemma_document_round_trip(root);
}

/// Extension exclusion: a command that is written without an extension, or
/// with the empty extension, has no `<extension>` element. Its children are
/// the request and the client transaction identifier.
pub proof fn lemma_no_extension<R: Transaction<NoExtension, ExtensionWrapper = NoExtension>>(
    request: R,
    extension: Option<NoExtension>,
    client_tr_id: Seq<char>,
)
    requires
        local_name(request.xml().name) != "extension"@,
    ensures
        wrapped_option::<NoExtension, R::ExtensionWrapper>(extension) is None,
        command_view(
            request.xml(),
            wrapped_option::<NoExtension, R::ExtensionWrapper>(extension),
            client_tr_id,
        ).children == seq![request.xml(), text_element("clTRID"@, client_tr_id)],
        find_child(
            command_view(
                request.xml(),
                wrapped_option::<NoExtension, R::ExtensionWrapper>(extension),
                client_tr_id,
            ).children,
            "extension"@,
        ) is None,
{
    reveal_strlit("clTRID");
    reveal_strlit("extension");
    let tr = text_element("clTRID"@, client_tr_id);
    let children = seq![request.xml(), tr];
    crate::reader::lemma_span_is("clTRID"@, CharClass::Prefix, 6);
    assert(local_name(tr.name) == "clTRID"@);
    assert(local_name(tr.name).len() != "extension"@.len());
    assert(children.skip(1)[0] == tr);
    assert(children.skip(1).skip(1).len() == 0);
    assert(find_child(children.skip(1).skip(1), "extension"@) is None);
    assert(find_child(children.skip(1), "extension"@) is None);
}

} // verus!
