//! The server's greeting and the `hello` that asks for it.

use crate::common::Error;
use crate::query::{child_text, children_named, find_child, has_local_name, local_name, texts_of};
use crate::reader::{parse_document, read_document};
use crate::request::EPP_XMLNS;
use crate::text::strings_view;
use crate::response::option_view;
use crate::xml::{lemma_view_fields, render, AttributeView, ElementView, XmlElement};
use vstd::prelude::*;

verus! {

/// What a server says of itself when a connection opens.
#[derive(Debug)]
pub struct Greeting {
    /// The server's name.
    pub server_id: String,
    /// The server's date and time.
    pub server_date: String,
    /// The protocol versions that the server speaks.
    pub versions: Vec<String>,
    /// The languages of the server's messages.
    pub languages: Vec<String>,
    /// The namespaces of the objects that the server manages.
    pub object_uris: Vec<String>,
    /// The namespaces of the extensions that the server knows.
    pub extension_uris: Vec<String>,
    /// The server's data collection policy: its `<dcp>` element as XML.
    pub dcp: Option<String>,
}

/// The mathematical value of a greeting.
pub struct GreetingView {
    pub server_id: Seq<char>,
    pub server_date: Seq<char>,
    pub versions: Seq<Seq<char>>,
    pub languages: Seq<Seq<char>>,
    pub object_uris: Seq<Seq<char>>,
    pub extension_uris: Seq<Seq<char>>,
    pub dcp: Option<Seq<char>>,
}

impl View for Greeting {
    type V = GreetingView;

    open spec fn view(&self) -> GreetingView {
        GreetingView {
            server_id: self.server_id@,
            server_date: self.server_date@,
            versions: strings_view(self.versions@),
            languages: strings_view(self.languages@),
            object_uris: strings_view(self.object_uris@),
            extension_uris: strings_view(self.extension_uris@),
            dcp: option_view(self.dcp),
        }
    }
}

/// The texts of the children of `e` that are named `local`.
pub open spec fn texts_named(e: ElementView, local: Seq<char>) -> Seq<Seq<char>> {
    texts_of(children_named(e.children, local))
}

/// The greeting that a document holds: its root is `<epp>`, with a
/// `<greeting>` that has `<svID>`, `<svDate>` and `<svcMenu>`. The extension
/// namespaces are those of the menu's `<svcExtension>`, if it has one; the
/// policy is the greeting's `<dcp>` element as it is written.
pub open spec fn greeting_of(root: ElementView) -> Option<GreetingView> {
    if local_name(root.name) != "epp"@ {
        None
    } else {
        match find_child(root.children, "greeting"@) {
            None => None,
            Some(g) => match (
                child_text(g, "svID"@),
                child_text(g, "svDate"@),
                find_child(g.children, "svcMenu"@),
            ) {
                (Some(server_id), Some(server_date), Some(menu)) => Some(
                    GreetingView {
                        server_id,
                        server_date,
                        versions: texts_named(menu, "version"@),
                        languages: texts_named(menu, "lang"@),
                        object_uris: texts_named(menu, "objURI"@),
                        extension_uris: match find_child(menu.children, "svcExtension"@) {
                            Some(x) => texts_named(x, "extURI"@),
                            None => Seq::empty(),
                        },
                        dcp: match find_child(g.children, "dcp"@) {
                            Some(d) => Some(render(d)),
                            None => None,
                        },
                    },
                ),
                _ => None,
            },
        }
    }
}

/// Whether `r` is what reading `text` as a greeting gives: `Xml` for text
/// that is no XML document, `Protocol` for a document that holds no
/// greeting.
pub open spec fn greeting_read(text: Seq<char>, r: Result<Greeting, Error>) -> bool {
    match parse_document(text) {
        None => r matches Err(Error::Xml),
        Some(root) => match greeting_of(root) {
            None => r matches Err(Error::Protocol),
            Some(g) => r matches Ok(v) && v@ == g,
        },
    }
}

/// Reads the greeting that the element `root` holds.
pub fn read_greeting(root: &XmlElement) -> (r: Option<Greeting>)
    ensures
        match greeting_of(root@) {
            Some(g) => r matches Some(v) && v@ == g,
            None => r is None,
        },
{
    proof {
        lemma_view_fields(root);
    }
    if !has_local_name(root.name.as_str(), "epp") {
        return None;
    }
    let g = match root.child("greeting") {
        Some(x) => x,
        None => {
            return None;
        },
    };
    let server_id = match g.child_text("svID") {
        Some(x) => x,
        None => {
            return None;
        },
    };
    let server_date = match g.child_text("svDate") {
        Some(x) => x,
        None => {
            return None;
        },
    };
    let menu = match g.child("svcMenu") {
        Some(x) => x,
        None => {
            return None;
        },
    };
    let extension_uris = match menu.child("svcExtension") {
        Some(x) => x.child_texts("extURI"),
        None => {
            let none: Vec<String> = Vec::new();
            assert(strings_view(none@) =~= Seq::empty());
            none
        },
    };
    let dcp = match g.child("dcp") {
        Some(d) => Some(d.to_text()),
        None => None,
    };
    Some(
        Greeting {
            server_id,
            server_date,
            versions: menu.child_texts("version"),
            languages: menu.child_texts("lang"),
            object_uris: menu.child_texts("objURI"),
            extension_uris,
            dcp,
        },
    )
}

/// Reads `epp_xml` as a greeting.
pub fn deserialize_greeting(epp_xml: &str) -> (r: Result<Greeting, Error>)
    ensures
        greeting_read(epp_xml@, r),
{
    match read_document(epp_xml) {
        None => Err(Error::Xml),
        Some(root) => match read_greeting(&root) {
            Some(g) => Ok(g),
            None => Err(Error::Protocol),
        },
    }
}

/// The document that asks the server for its greeting: `<epp>` around an
/// empty `<hello>`.
pub open spec fn hello_view() -> ElementView {
    ElementView {
        name: "epp"@,
        attributes: seq![AttributeView { name: "xmlns"@, value: EPP_XMLNS@ }],
        text: Seq::empty(),
        children: seq![
            ElementView {
                name: "hello"@,
                attributes: Seq::empty(),
                text: Seq::empty(),
                children: Seq::empty(),
            },
        ],
    }
}

/// The `hello` document.
pub fn hello_element() -> (e: XmlElement)
    ensures
        e@ == hello_view(),
{
    let e = crate::request::epp_element(XmlElement::new("hello"));
    assert(e@.children =~= hello_view().children);
    e
}

} // verus!
