//! What the typed requests, responses and extensions share: how a value
//! is turned into XML and read back from it, and the extension wrappers.

use crate::xml::{lemma_view_fields, ElementView, XmlElement};
use vstd::prelude::*;

verus! {

/// The failures that the library reports.
#[derive(Debug)]
pub enum Error {
    /// A frame's length prefix is out of range.
    Framing,
    /// The stream ended inside a frame.
    Truncated,
    /// A document could not be written as XML or read as XML.
    Xml,
    /// A well-formed document that is not what the protocol asks for.
    Protocol,
    /// The reply carries an extension although none was declared.
    UnknownExtension,
    /// The server refused the command: a result code outside the 1xxx band.
    EppCommandError(crate::response::ResponseStatus),
    /// The session is not in a state that allows the operation.
    SessionBroken,
}

/// A value that is written as one XML element.
pub trait ToXml {
    /// The element that stands for the value.
    spec fn xml(&self) -> ElementView;

    fn to_xml(&self) -> (e: XmlElement)
        ensures
            e@ == self.xml(),
    ;
}

/// A value that is read from one XML element.
pub trait FromXml: Sized {
    /// Whether `e` holds a value of this type.
    spec fn decodable(e: ElementView) -> bool;

    /// Whether `v` is the value that `e` holds.
    spec fn decodes(e: ElementView, v: Self) -> bool;

    fn from_xml(e: &XmlElement) -> (r: Option<Self>)
        ensures
            r is Some <==> Self::decodable(e@),
            r matches Some(v) ==> Self::decodes(e@, v),
    ;
}

/// The extension of a request that has none. It contributes nothing to the
/// request and is read from a reply without an `<extension>` element.
#[derive(Clone, Copy, Debug, PartialEq, Eq, Structural)]
pub struct NoExtension;

/// The `<extension>` element around one extension.
#[derive(Debug)]
pub struct Extension<E> {
    pub data: E,
}

/// An `<extension>` element with the given children.
pub open spec fn extension_view(children: Seq<ElementView>) -> ElementView {
    ElementView {
        name: "extension"@,
        attributes: Seq::empty(),
        text: Seq::empty(),
        children,
    }
}

/// How a request places an extension of type `Ext` inside `<extension>`.
pub trait Wraps<Ext>: Sized {
    /// The `<extension>` element that the wrapper is written as; `None`
    /// where it contributes nothing.
    spec fn wire(&self) -> Option<ElementView>;

    /// The `<extension>` element for `ext`.
    spec fn wrapped(ext: Ext) -> Option<ElementView>;

    fn wrap(ext: Ext) -> (w: Self)
        ensures
            w.wire() == Self::wrapped(ext),
    ;

    fn to_wire(&self) -> (r: Option<XmlElement>)
        ensures
            match self.wire() {
                Some(v) => r matches Some(x) && x@ == v,
                None => r is None,
            },
    ;
}

impl<E: ToXml> ToXml for Extension<E> {
    open spec fn xml(&self) -> ElementView {
        extension_view(seq![self.data.xml()])
    }

    fn to_xml(&self) -> (e: XmlElement) {
        let mut e = XmlElement::new("extension");
        e.add_child(self.data.to_xml());
        assert(e@.children =~= seq![self.data.xml()]);
        e
    }
}

impl<E: ToXml> Wraps<E> for Extension<E> {
    open spec fn wire(&self) -> Option<ElementView> {
        Some(self.xml())
    }

    open spec fn wrapped(ext: E) -> Option<ElementView> {
        Some(extension_view(seq![ext.xml()]))
    }

    fn wrap(ext: E) -> (w: Self) {
        Extension { data: ext }
    }

    fn to_wire(&self) -> (r: Option<XmlElement>) {
        Some(self.to_xml())
    }
}

impl Wraps<NoExtension> for NoExtension {
    open spec fn wire(&self) -> Option<ElementView> {
        None
    }

    open spec fn wrapped(ext: NoExtension) -> Option<ElementView> {
        None
    }

    fn wrap(ext: NoExtension) -> (w: Self) {
        ext
    }

    fn to_wire(&self) -> (r: Option<XmlElement>) {
        None
    }
}

impl FromXml for () {
    open spec fn decodable(e: ElementView) -> bool {
        true
    }

    open spec fn decodes(e: ElementView, v: ()) -> bool {
        true
    }

    fn from_xml(e: &XmlElement) -> (r: Option<()>) {
        Some(())
    }
}

impl FromXml for String {
    open spec fn decodable(e: ElementView) -> bool {
        true
    }

    /// The value is the element's text.
    open spec fn decodes(e: ElementView, v: String) -> bool {
        v@ == e.text
    }

    fn from_xml(e: &XmlElement) -> (r: Option<String>) {
        proof {
            lemma_view_fields(e);
        }
        Some(e.text.clone())
    }
}

} // verus!
