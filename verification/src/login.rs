//! The `login` command.

use crate::common::{NoExtension, ToXml};
use crate::query::text_eq;
use crate::request::{Transaction, EPP_LANG, EPP_VERSION};
use crate::text::strings_view;
use crate::xml::{element, text_element, text_elements, ElementView, XmlElement};
use vstd::prelude::*;
use vstd::string::StringExecFns;

verus! {

/// The `login` command.
#[derive(Debug)]
pub struct Login {
    /// The client's identifier.
    pub username: String,
    /// The client's password.
    pub password: String,
    /// The protocol version to be used in the session.
    pub version: String,
    /// The language of the server's messages.
    pub lang: String,
    /// The namespaces of the objects to be managed in the session.
    pub object_uris: Vec<String>,
    /// The namespaces of the extensions to be used in the session.
    pub extension_uris: Option<Vec<String>>,
}

/// Whether the library manages objects of the namespace `uri`: hosts,
/// contacts and domains.
pub open spec fn is_supported(uri: Seq<char>) -> bool {
    uri == crate::host::XMLNS@ || uri == crate::contact::XMLNS@ || uri == crate::domain::XMLNS@
}

/// Those of `uris` that the library manages, in order.
pub open spec fn supported_of(uris: Seq<Seq<char>>) -> Seq<Seq<char>>
    decreases uris.len(),
{
    if uris.len() == 0 {
        Seq::empty()
    } else if is_supported(uris[0]) {
        seq![uris[0]] + supported_of(uris.skip(1))
    } else {
        supported_of(uris.skip(1))
    }
}

/// The views of an optional list of strings.
pub open spec fn option_strings_view(v: Option<Vec<String>>) -> Option<Seq<Seq<char>>> {
    match v {
        Some(x) => Some(strings_view(x@)),
        None => None,
    }
}

/// The `<login>` element.
pub open spec fn login_view(
    username: Seq<char>,
    password: Seq<char>,
    version: Seq<char>,
    lang: Seq<char>,
    object_uris: Seq<Seq<char>>,
    extension_uris: Option<Seq<Seq<char>>>,
) -> ElementView {
    element(
        "login"@,
        Seq::empty(),
        seq![
            text_element("clID"@, username),
            text_element("pw"@, password),
            element(
                "options"@,
                Seq::empty(),
                seq![text_element("version"@, version), text_element("lang"@, lang)],
            ),
            element(
                "svcs"@,
                Seq::empty(),
                text_elements("objURI"@, object_uris) + (match extension_uris {
                    Some(x) => seq![
                        element("svcExtension"@, Seq::empty(), text_elements("extURI"@, x)),
                    ],
                    None => Seq::empty(),
                }),
            ),
        ],
    )
}

/// Those of the object namespaces `offered` by a server that the library
/// manages, in the server's order.
pub fn supported_services(offered: &Vec<String>) -> (r: Vec<String>)
    ensures
        strings_view(r@) == supported_of(strings_view(offered@)),
{
    let ghost all = strings_view(offered@);
    let mut kept: Vec<String> = Vec::new();
    let mut i: usize = 0;
    assert(all.skip(0) =~= all);
    assert(strings_view(kept@) + supported_of(all) =~= supported_of(all));
    while i < offered.len()
        invariant
            i <= offered@.len(),
            all == strings_view(offered@),
            strings_view(kept@) + supported_of(all.skip(i as int)) == supported_of(all),
        decreases offered@.len() - i,
    {
        let ghost before = strings_view(kept@);
        let uri = offered[i].as_str();
        assert(all.skip(i as int)[0] == offered@[i as int]@);
        assert(all.skip(i as int).skip(1) =~= all.skip(i + 1));
        if text_eq(uri, crate::host::XMLNS) || text_eq(uri, crate::contact::XMLNS) || text_eq(
            uri,
            crate::domain::XMLNS,
        ) {
            kept.push(offered[i].clone());
            assert(strings_view(kept@) =~= before + seq![offered@[i as int]@]);
            assert(strings_view(kept@) + supported_of(all.skip(i + 1)) =~= before + supported_of(
                all.skip(i as int),
            ));
        }
        i = i + 1;
    }
    assert(strings_view(kept@) + Seq::<Seq<char>>::empty() =~= strings_view(kept@));
    kept
}

/// A copy of a list of strings.
pub fn copy_strings(v: &Vec<String>) -> (r: Vec<String>)
    ensures
        strings_view(r@) == strings_view(v@),
{
    let mut out: Vec<String> = Vec::new();
    let mut i: usize = 0;
    while i < v.len()
        invariant
            i <= v@.len(),
            out@.len() == i,
            forall|j: int| 0 <= j < i ==> (#[trigger] out@[j])@ == v@[j]@,
        decreases v@.len() - i,
    {
        out.push(v[i].clone());
        i = i + 1;
    }
    assert(strings_view(out@) =~= strings_view(v@));
    out
}

impl Login {
    /// A login for version 1.0 and language `en`, with the given object
    /// and extension namespaces.
    pub fn new(
        username: &str,
        password: &str,
        object_uris: Vec<String>,
        ext_uris: &Option<Vec<String>>,
    ) -> (r: Login)
        ensures
            r.xml() == login_view(
                username@,
                password@,
                EPP_VERSION@,
                EPP_LANG@,
                strings_view(object_uris@),
                option_strings_view(*ext_uris),
            ),
    {
        let extension_uris = match ext_uris {
            Some(x) => Some(copy_strings(x)),
            None => None,
        };
        Login {
            username: String::from_str(username),
            password: String::from_str(password),
            version: String::from_str(EPP_VERSION),
            lang: String::from_str(EPP_LANG),
            object_uris,
            extension_uris,
        }
    }
}

impl ToXml for Login {
    open spec fn xml(&self) -> ElementView {
        login_view(
            self.username@,
            self.password@,
            self.version@,
            self.lang@,
            strings_view(self.object_uris@),
            option_strings_view(self.extension_uris),
        )
    }

    fn to_xml(&self) -> (e: XmlElement) {
        let mut options = XmlElement::new("options");
        options.add_child(XmlElement::with_text("version", self.version.as_str()));
        options.add_child(XmlElement::with_text("lang", self.lang.as_str()));
        let mut svcs = XmlElement::new("svcs");
        svcs.add_text_children("objURI", &self.object_uris);
        match &self.extension_uris {
            Some(x) => {
                let mut ext = XmlElement::new("svcExtension");
                ext.add_text_children("extURI", x);
                assert(ext@.children =~= text_elements("extURI"@, strings_view(x@)));
                svcs.add_child(ext);
            },
            None => {},
        }
        let mut e = XmlElement::new("login");
        e.add_child(XmlElement::with_text("clID", self.username.as_str()));
        e.add_child(XmlElement::with_text("pw", self.password.as_str()));
        e.add_child(options);
        e.add_child(svcs);
        proof {
            let v = self.xml();
            assert(options@.children =~= v.children[2].children);
            assert(svcs@.children =~= v.children[3].children);
            assert(e@.children =~= v.children);
        }
        e
    }
}

impl Transaction<NoExtension> for Login {
    type ExtensionWrapper = NoExtension;

    type Response = ();

    type ExtensionResponse = NoExtension;
}

} // verus!
