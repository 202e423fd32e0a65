//! The client: the state of one session, and what each request and reply
//! does to it.
//!
//! The client holds no connection. For every exchange it hands out the
//! document to send and takes the reply that came back; whoever owns the
//! byte stream sends and receives, and reports a failure of the stream with
//! `connection_lost`.

use crate::common::{Error, NoExtension, ToXml};
use crate::greeting::{
    deserialize_greeting, greeting_of, greeting_read, hello_element, hello_view, Greeting,
};
use crate::login::{
    copy_strings, login_view, option_strings_view, supported_of, supported_services, Login,
};
use crate::logout::Logout;
use crate::query::{has_local_name, text_eq};
use crate::reader::{parse_document, read_document};
use crate::request::{
    command_view, document_text, document_written, epp_view, wrapped_option, write_document,
    Transaction, EPP_LANG, EPP_VERSION,
};
use crate::response::{
    deserialized, option_view, read_response, read_status, response_of, status_of, Response,
};
use crate::text::{chars_of, decimal_text, push_char, push_decimal, string_of, strings_view};
use crate::xml::{lemma_view_fields, ElementView};
use vstd::prelude::*;
use vstd::string::StringExecFns;

verus! {

/// The states of a session.
#[derive(Clone, Copy, Debug, PartialEq, Eq, Structural)]
pub enum SessionState {
    /// No greeting has been received yet.
    Unconnected,
    /// The server has greeted; the client has not logged in.
    Greeted,
    /// The client is logged in.
    LoggedIn,
    /// The client has logged out.
    LoggedOut,
    /// The session has failed for good.
    Broken,
}

/// The kinds of exchange that carry a client transaction identifier.
#[derive(Clone, Copy, Debug, PartialEq, Eq, Structural)]
pub enum Exchange {
    Login,
    Command,
    Logout,
}

/// The result code with which a server ends a session.
pub const SESSION_ENDED: u16 = 1500;

/// The longest client transaction identifier, in characters.
pub const MAX_TR_ID_LEN: usize = 64;

/// The state of one session with a registry.
#[derive(Debug)]
pub struct EppClient {
    credentials: (String, String),
    ext_uris: Option<Vec<String>>,
    greeting: String,
    services: Vec<String>,
    state: SessionState,
    pending: Option<(Exchange, String)>,
}

/// The mathematical value of a client.
pub struct ClientView {
    pub username: Seq<char>,
    pub password: Seq<char>,
    /// The extension namespaces that a login advertises.
    pub ext_uris: Option<Seq<Seq<char>>>,
    /// The greeting as received, empty before one was.
    pub greeting: Seq<char>,
    /// The object namespaces that a login advertises.
    pub services: Seq<Seq<char>>,
    pub state: SessionState,
    /// The exchange in flight: its kind and client transaction identifier.
    pub pending: Option<(Exchange, Seq<char>)>,
}

impl View for EppClient {
    type V = ClientView;

    closed spec fn view(&self) -> ClientView {
        ClientView {
            username: self.credentials.0@,
            password: self.credentials.1@,
            ext_uris: option_strings_view(self.ext_uris),
            greeting: self.greeting@,
            services: strings_view(self.services@),
            state: self.state,
            pending: match self.pending {
                Some((k, t)) => Some((k, t@)),
                None => None,
            },
        }
    }
}

/// The state in which an exchange of the kind may start.
pub open spec fn state_for(kind: Exchange) -> SessionState {
    match kind {
        Exchange::Login => SessionState::Greeted,
        Exchange::Command => SessionState::LoggedIn,
        Exchange::Logout => SessionState::LoggedIn,
    }
}

/// Whether a request of the kind may be sent: the session is in the state
/// for it and no exchange is in flight.
pub open spec fn may_send(c: ClientView, kind: Exchange) -> bool {
    c.state == state_for(kind) && c.pending is None
}

/// Whether a reply of the kind is awaited.
pub open spec fn awaits(c: ClientView, kind: Exchange) -> bool {
    c.state == state_for(kind) && (c.pending matches Some((k, _)) && k == kind)
}

/// The greeting that the text `text` holds.
pub open spec fn greeting_in(text: Seq<char>) -> Option<crate::greeting::GreetingView> {
    match parse_document(text) {
        Some(root) => greeting_of(root),
        None => None,
    }
}

/// The client transaction identifier that the reply `text` echoes.
/// `None` where the text holds no reply with a status.
pub open spec fn echo_of(text: Seq<char>) -> Option<Option<Seq<char>>> {
    match parse_document(text) {
        None => None,
        Some(root) => match response_of(root) {
            None => None,
            Some(response) => match status_of(response) {
                None => None,
                Some(status) => Some(status.client_tr_id),
            },
        },
    }
}

/// The state of the session after the reply `r` to an exchange of the kind.
/// Only a login that succeeds logs in, and only a logout that is answered
/// with the code 1500 logs out. A refused command, and a reply whose
/// payload cannot be read, leave a logged-in session as it is; they end a
/// login. Any other failure breaks the session.
pub open spec fn state_after<D, E>(kind: Exchange, r: Result<Response<D, E>, Error>) -> SessionState {
    match r {
        Ok(v) => if kind == Exchange::Logout && v.result.code == SESSION_ENDED {
            SessionState::LoggedOut
        } else {
            SessionState::LoggedIn
        },
        Err(Error::EppCommandError(_)) | Err(Error::Xml) | Err(Error::UnknownExtension) => if kind
            == Exchange::Login {
            SessionState::Broken
        } else {
            SessionState::LoggedIn
        },
        Err(_) => SessionState::Broken,
    }
}

/// What sending a request does. Where the session does not allow it, the
/// result is `SessionBroken`, nothing is handed out and the client stays
/// as it is. Where it does, the result is the document, and the exchange
/// is in flight if the document could be written.
pub open spec fn request_sent(
    before: ClientView,
    after: ClientView,
    kind: Exchange,
    root: ElementView,
    client_tr_id: Seq<char>,
    r: Result<String, Error>,
) -> bool {
    if !may_send(before, kind) {
        r matches Err(Error::SessionBroken) && after == before
    } else {
        &&& document_written(root, r)
        &&& after == (ClientView {
            pending: if r is Ok {
                Some((kind, client_tr_id))
            } else {
                None
            },
            ..before
        })
    }
}

/// What taking a reply does. Where no reply of the kind is awaited, the
/// result is `SessionBroken` and the client stays as it is. A reply that
/// does not echo the client transaction identifier of the request is
/// answered with `Protocol` and breaks the session. Any other reply is read
/// as the request's binding says, and the session moves as `state_after`
/// says. In either case no exchange is in flight afterwards.
pub open spec fn reply_taken<D: crate::common::FromXml, E: crate::response::ReplyExtension>(
    before: ClientView,
    after: ClientView,
    kind: Exchange,
    text: Seq<char>,
    r: Result<Response<D, E>, Error>,
) -> bool {
    if !awaits(before, kind) {
        r matches Err(Error::SessionBroken) && after == before
    } else if (before.pending matches Some((_, sent)) && (echo_of(text) matches Some(echo) && echo
        != Some(sent))) {
        r matches Err(Error::Protocol) && after == (ClientView {
            pending: None,
            state: SessionState::Broken,
            ..before
        })
    } else {
        &&& deserialized(text, r)
        &&& after == (ClientView { pending: None, state: state_after(kind, r), ..before })
    }
}

/// The default client transaction identifier: the user name, a colon and
/// the seconds since the Unix epoch, cut to 64 characters.
pub open spec fn tr_id_text(username: Seq<char>, unix_seconds: nat) -> Seq<char> {
    let full = username + seq![':'] + decimal_text(unix_seconds);
    if full.len() > MAX_TR_ID_LEN {
        full.take(MAX_TR_ID_LEN as int)
    } else {
        full
    }
}

/// The default client transaction identifier for a user at a time.
pub fn client_tr_id_at(username: &str, unix_seconds: u64) -> (r: String)
    ensures
        r@ == tr_id_text(username@, unix_seconds as nat),
{
    let mut full = String::from_str(username);
    push_char(&mut full, ':');
    push_decimal(&mut full, unix_seconds);
    let chars = chars_of(full.as_str());
    if chars.len() > MAX_TR_ID_LEN {
        let cut = string_of(chars.as_slice(), 0, MAX_TR_ID_LEN);
        assert(cut@ =~= full@.take(MAX_TR_ID_LEN as int));
        cut
    } else {
        full
    }
}

/// The seconds since the Unix epoch on the system's clock; `None` where
/// the clock stands before the epoch.
///
/// Trusted: calls `SystemTime::now` and `SystemTime::duration_since`.
/// Nothing is claimed of the result.
#[verifier::external_body]
fn unix_seconds() -> Option<u64> {
    std::time::SystemTime::now().duration_since(std::time::SystemTime::UNIX_EPOCH).ok().map(
        |d| d.as_secs(),
    )
}

/// A simple client transaction identifier for `client`: its user name and
/// the time of the call, in seconds since the Unix epoch (zero where the
/// clock stands before the epoch). Identifiers made for one user within
/// one second are equal.
pub fn default_client_tr_id_fn(client: &EppClient) -> (r: String)
    ensures
        exists|seconds: nat| r@ == tr_id_text(client@.username, seconds),
{
    let seconds = match unix_seconds() {
        Some(s) => s,
        None => 0,
    };
    let r = client_tr_id_at(client.credentials.0.as_str(), seconds);
    assert(r@ == tr_id_text(client@.username, seconds as nat));
    r
}

impl EppClient {
    /// A client that has not yet been greeted.
    pub fn new(credentials: (String, String), ext_uris: Option<Vec<String>>) -> (c: EppClient)
        ensures
            c@ == (ClientView {
                username: credentials.0@,
                password: credentials.1@,
                ext_uris: option_strings_view(ext_uris),
                greeting: Seq::empty(),
                services: Seq::empty(),
                state: SessionState::Unconnected,
                pending: None,
            }),
    {
        let c = EppClient {
            credentials,
            ext_uris,
            greeting: String::new(),
            services: Vec::new(),
            state: SessionState::Unconnected,
            pending: None,
        };
        assert(c@.services =~= Seq::empty());
        c
    }

    /// Takes the first frame that the server sent.
    ///
    /// A client that is not `Unconnected` answers `SessionBroken` and stays
    /// as it is. Otherwise a frame that holds a greeting is kept as
    /// received and the session is `Greeted`; any other frame is answered
    /// with `Protocol` and breaks the session.
    pub fn connected(&mut self, greeting_xml: &str) -> (r: Result<(), Error>)
        ensures
            old(self)@.state != SessionState::Unconnected ==> (r matches Err(Error::SessionBroken)
                && final(self)@ == old(self)@),
            old(self)@.state == SessionState::Unconnected ==> match greeting_in(greeting_xml@) {
                Some(g) => r is Ok && final(self)@ == (ClientView {
                    greeting: greeting_xml@,
                    services: supported_of(g.object_uris),
                    state: SessionState::Greeted,
                    ..old(self)@
                }),
                None => r matches Err(Error::Protocol) && final(self)@ == (ClientView {
                    state: SessionState::Broken,
                    ..old(self)@
                }),
            },
    {
        if !matches!(self.state, SessionState::Unconnected) {
            return Err(Error::SessionBroken);
        }
        match deserialize_greeting(greeting_xml) {
            Ok(g) => {
                self.services = supported_services(&g.object_uris);
                self.greeting = String::from_str(greeting_xml);
                self.state = SessionState::Greeted;
                Ok(())
            },
            Err(_) => {
                self.state = SessionState::Broken;
                Err(Error::Protocol)
            },
        }
    }

    /// The user name of the session.
    pub fn username(&self) -> (r: String)
        ensures
            r@ == self@.username,
    {
        self.credentials.0.clone()
    }

    /// The greeting as received when the connection was opened.
    pub fn xml_greeting(&self) -> (r: String)
        ensures
            r@ == self@.greeting,
    {
        self.greeting.clone()
    }

    /// The greeting received when the connection was opened.
    pub fn greeting(&self) -> (r: Result<Greeting, Error>)
        ensures
            greeting_read(self@.greeting, r),
    {
        deserialize_greeting(self.greeting.as_str())
    }

    /// The state of the session.
    pub fn state(&self) -> (r: SessionState)
        ensures
            r == self@.state,
    {
        self.state
    }

    /// Whether closing the session has to log out first.
    pub fn must_logout(&self) -> (r: bool)
        ensures
            r == (self@.state == SessionState::LoggedIn),
    {
        matches!(self.state, SessionState::LoggedIn)
    }

    /// Records that the byte stream failed, or that an exchange was given
    /// up: the session is broken and nothing is in flight.
    pub fn connection_lost(&mut self)
        ensures
            final(self)@ == (ClientView {
                state: SessionState::Broken,
                pending: None,
                ..old(self)@
            }),
    {
        self.state = SessionState::Broken;
        self.pending = None;
    }

    fn allows(&self, kind: Exchange) -> (r: bool)
        ensures
            r == (self@.state == state_for(kind)),
    {
        match kind {
            Exchange::Login => matches!(self.state, SessionState::Greeted),
            Exchange::Command => matches!(self.state, SessionState::LoggedIn),
            Exchange::Logout => matches!(self.state, SessionState::LoggedIn),
        }
    }

    fn begin<R: Transaction<Ext>, Ext>(
        &mut self,
        kind: Exchange,
        request: R,
        extension: Option<Ext>,
        client_tr_id: &str,
    ) -> (r: Result<String, Error>)
        ensures
            request_sent(
                old(self)@,
                final(self)@,
                kind,
                epp_view(
                    command_view(
                        request.xml(),
                        wrapped_option::<Ext, R::ExtensionWrapper>(extension),
                        client_tr_id@,
                    ),
                ),
                client_tr_id@,
                r,
            ),
    {
        if !self.allows(kind) || self.pending.is_some() {
            return Err(Error::SessionBroken);
        }
        match request.serialize_request(extension, client_tr_id) {
            Ok(xml) => {
                self.pending = Some((kind, String::from_str(client_tr_id)));
                Ok(xml)
            },
            Err(e) => Err(e),
        }
    }

    fn finish<R: Transaction<Ext>, Ext>(&mut self, kind: Exchange, epp_xml: &str) -> (r: Result<
        Response<R::Response, R::ExtensionResponse>,
        Error,
    >)
        ensures
            reply_taken(old(self)@, final(self)@, kind, epp_xml@, r),
    {
        if !self.allows(kind) {
            return Err(Error::SessionBroken);
        }
        let sent = match &self.pending {
            Some((k, t)) => {
                if !same_kind(*k, kind) {
                    return Err(Error::SessionBroken);
                }
                t.clone()
            },
            None => {
                return Err(Error::SessionBroken);
            },
        };
        self.pending = None;
        let r = take_reply::<R::Response, R::ExtensionResponse>(sent.as_str(), epp_xml);
        self.state = match &r {
            Ok(v) => if matches!(kind, Exchange::Logout) && v.result.code == SESSION_ENDED {
                SessionState::LoggedOut
            } else {
                SessionState::LoggedIn
            },
            Err(Error::EppCommandError(_)) | Err(Error::Xml) | Err(Error::UnknownExtension) => {
                if matches!(kind, Exchange::Login) {
                    SessionState::Broken
                } else {
                    SessionState::LoggedIn
                }
            },
            Err(_) => SessionState::Broken,
        };
        r
    }

    /// Starts the login: hands out the `login` command for the session's
    /// credentials, version 1.0 and language `en`, the object namespaces
    /// that both the server and the library know, and the configured
    /// extension namespaces.
    pub fn login(&mut self, client_tr_id: &str) -> (r: Result<String, Error>)
        ensures
            request_sent(
                old(self)@,
                final(self)@,
                Exchange::Login,
                epp_view(
                    command_view(
                        login_view(
                            old(self)@.username,
                            old(self)@.password,
                            EPP_VERSION@,
                            EPP_LANG@,
                            old(self)@.services,
                            old(self)@.ext_uris,
                        ),
                        None,
                        client_tr_id@,
                    ),
                ),
                client_tr_id@,
                r,
            ),
    {
        let login = Login::new(
            self.credentials.0.as_str(),
            self.credentials.1.as_str(),
            copy_strings(&self.services),
            &self.ext_uris,
        );
        self.begin::<Login, NoExtension>(Exchange::Login, login, None, client_tr_id)
    }

    /// Takes the reply to the login. The session is `LoggedIn` if the
    /// server accepted, and `Broken` after any failure.
    pub fn login_reply(&mut self, epp_xml: &str) -> (r: Result<Response<(), NoExtension>, Error>)
        ensures
            reply_taken(old(self)@, final(self)@, Exchange::Login, epp_xml@, r),
    {
        self.finish::<Login, NoExtension>(Exchange::Login, epp_xml)
    }

    /// Starts a transaction: hands out the command for `request` with its
    /// extension and client transaction identifier.
    ///
    /// In every state but `LoggedIn` the result is `SessionBroken`; the
    /// client stays as it is and there is nothing to send.
    pub fn transact<R: Transaction<Ext>, Ext>(
        &mut self,
        request: R,
        extension: Option<Ext>,
        client_tr_id: &str,
    ) -> (r: Result<String, Error>)
        ensures
            request_sent(
                old(self)@,
                final(self)@,
                Exchange::Command,
                epp_view(
                    command_view(
                        request.xml(),
                        wrapped_option::<Ext, R::ExtensionWrapper>(extension),
                        client_tr_id@,
                    ),
                ),
                client_tr_id@,
                r,
            ),
            old(self)@.state != SessionState::LoggedIn ==> (r matches Err(Error::SessionBroken)
                && final(self)@ == old(self)@),
    {
        self.begin::<R, Ext>(Exchange::Command, request, extension, client_tr_id)
    }

    /// Starts a transaction with an identifier of the caller's making:
    /// where the session allows a transaction, `generator` is called once,
    /// on the client as it is, and what it returns is the client
    /// transaction identifier of the command. Where the session does not,
    /// the generator is not called.
    pub fn transact_with<R: Transaction<Ext>, Ext, G: Fn(&EppClient) -> String>(
        &mut self,
        request: R,
        extension: Option<Ext>,
        generator: G,
    ) -> (r: Result<String, Error>)
        requires
            call_requires(generator, (&*old(self),)),
        ensures
            !may_send(old(self)@, Exchange::Command) ==> (r matches Err(Error::SessionBroken)
                && final(self)@ == old(self)@),
            may_send(old(self)@, Exchange::Command) ==> exists|id: String|
                call_ensures(generator, (&*old(self),), id) && request_sent(
                    old(self)@,
                    final(self)@,
                    Exchange::Command,
                    epp_view(
                        command_view(
                            request.xml(),
                            wrapped_option::<Ext, R::ExtensionWrapper>(extension),
                            id@,
                        ),
                    ),
                    id@,
                    r,
                ),
    {
        if !self.allows(Exchange::Command) || self.pending.is_some() {
            return Err(Error::SessionBroken);
        }
        let id = generator(&*self);
        let r = self.begin::<R, Ext>(Exchange::Command, request, extension, id.as_str());
        assert(call_ensures(generator, (&*old(self),), id));
        r
    }

    /// Takes the reply to a transaction.
    ///
    /// A reply that the server marked as refused is returned as
    /// `EppCommandError` and leaves the session logged in. A successful
    /// reply carries the client transaction identifier of the request.
    pub fn transact_reply<R: Transaction<Ext>, Ext>(&mut self, epp_xml: &str) -> (r: Result<
        Response<R::Response, R::ExtensionResponse>,
        Error,
    >)
        ensures
            reply_taken(old(self)@, final(self)@, Exchange::Command, epp_xml@, r),
            r matches Ok(v) ==> (old(self)@.pending matches Some((_, sent)) && option_view(
                v.tr_ids.client_tr_id,
            ) == Some(sent)),
    {
        self.finish::<R, Ext>(Exchange::Command, epp_xml)
    }

    /// Starts the logout: hands out the `logout` command.
    pub fn logout(&mut self, client_tr_id: &str) -> (r: Result<String, Error>)
        ensures
            request_sent(
                old(self)@,
                final(self)@,
                Exchange::Logout,
                epp_view(command_view(Logout.xml(), None, client_tr_id@)),
                client_tr_id@,
                r,
            ),
    {
        self.begin::<Logout, NoExtension>(Exchange::Logout, Logout, None, client_tr_id)
    }

    /// Takes the reply to the logout. The session is `LoggedOut` if the
    /// server answered with the code 1500.
    pub fn logout_reply(&mut self, epp_xml: &str) -> (r: Result<Response<(), NoExtension>, Error>)
        ensures
            reply_taken(old(self)@, final(self)@, Exchange::Logout, epp_xml@, r),
    {
        self.finish::<Logout, NoExtension>(Exchange::Logout, epp_xml)
    }

    /// Hands out the `hello` document, which asks the server for its
    /// greeting. Allowed while `Greeted` or `LoggedIn` and no exchange is in
    /// flight; `SessionBroken` otherwise.
    pub fn hello(&self) -> (r: Result<String, Error>)
        ensures
            match r {
                Ok(s) => is_idle(self@) && s@ == document_text(hello_view()),
                Err(e) => !is_idle(self@) && e is SessionBroken,
            },
    {
        if !(matches!(self.state, SessionState::Greeted) || matches!(
            self.state,
            SessionState::LoggedIn
        )) || self.pending.is_some() {
            return Err(Error::SessionBroken);
        }
        let root = hello_element();
        match write_document(&root) {
            Ok(s) => Ok(s),
            Err(_) => {
                proof {
                    lemma_hello_well_formed();
                }
                Err(Error::SessionBroken)
            },
        }
    }

    /// Hands out `xml` as it is, to be sent without a look at what it
    /// holds; the reply is for the caller to read. Allowed while `Greeted`
    /// or `LoggedIn` and no exchange is in flight; `SessionBroken`
    /// otherwise. The session stays as it is.
    pub fn transact_xml(&self, xml: &str) -> (r: Result<String, Error>)
        ensures
            match r {
                Ok(s) => is_idle(self@) && s@ == xml@,
                Err(e) => !is_idle(self@) && e is SessionBroken,
            },
    {
        if !(matches!(self.state, SessionState::Greeted) || matches!(
            self.state,
            SessionState::LoggedIn
        )) || self.pending.is_some() {
            return Err(Error::SessionBroken);
        }
        Ok(String::from_str(xml))
    }

    /// Takes the reply to `hello`. The state stays as it is, unless the
    /// reply is a document without a greeting, which breaks the session.
    pub fn hello_reply(&mut self, epp_xml: &str) -> (r: Result<Greeting, Error>)
        ensures
            !is_idle(old(self)@) ==> (r matches Err(Error::SessionBroken) && final(self)@
                == old(self)@),
            is_idle(old(self)@) ==> greeting_read(epp_xml@, r) && final(self)@
                == (ClientView {
                state: if r matches Err(Error::Protocol) {
                    SessionState::Broken
                } else {
                    old(self)@.state
                },
                ..old(self)@
            }),
    {
        if !(matches!(self.state, SessionState::Greeted) || matches!(
            self.state,
            SessionState::LoggedIn
        )) || self.pending.is_some() {
            return Err(Error::SessionBroken);
        }
        let r = deserialize_greeting(epp_xml);
        match &r {
            Err(Error::Protocol) => {
                self.state = SessionState::Broken;
            },
            _ => {},
        }
        r
    }
}

/// Whether the session is open and idle: greeted or logged in, with no
/// exchange in flight. This is when `hello` and raw documents may be sent.
pub open spec fn is_idle(c: ClientView) -> bool {
    (c.state == SessionState::Greeted || c.state == SessionState::LoggedIn) && c.pending is None
}

/// The `hello` document can be written.
pub proof fn lemma_hello_well_formed()
    ensures
        crate::canon::writable(hello_view()),
{
    reveal_strlit("epp");
    reveal_strlit("hello");
    reveal_strlit("xmlns");
    reveal_strlit("urn:ietf:params:xml:ns:epp-1.0");
    let v = hello_view();
    assert(crate::canon::is_name(v.name));
    assert(crate::canon::attribute_well_formed(v.attributes[0]));
    assert(crate::canon::well_formed(v.children[0]));
    assert(crate::canon::fits(v.children[0], (crate::reader::MAX_DEPTH - 1) as nat));
}

fn same_kind(a: Exchange, b: Exchange) -> (r: bool)
    ensures
        r == (a == b),
{
    match (a, b) {
        (Exchange::Login, Exchange::Login) => true,
        (Exchange::Command, Exchange::Command) => true,
        (Exchange::Logout, Exchange::Logout) => true,
        _ => false,
    }
}

/// Reads the reply `epp_xml` to a request that was sent with the client
/// transaction identifier `sent`.
///
/// A reply with a status that does not echo `sent` gives `Protocol`; any
/// other reply is read as `deserialize_response` reads it.
pub fn take_reply<D: crate::common::FromXml, E: crate::response::ReplyExtension>(
    sent: &str,
    epp_xml: &str,
) -> (r: Result<Response<D, E>, Error>)
    ensures
        match echo_of(epp_xml@) {
            Some(echo) => if echo == Some(sent@) {
                deserialized(epp_xml@, r)
            } else {
                r matches Err(Error::Protocol)
            },
            None => deserialized(epp_xml@, r),
        },
        r matches Ok(v) ==> option_view(v.tr_ids.client_tr_id) == Some(sent@),
{
    let root = match read_document(epp_xml) {
        Some(x) => x,
        None => {
            return Err(Error::Xml);
        },
    };
    proof {
        lemma_view_fields(&root);
    }
    if !has_local_name(root.name.as_str(), "epp") {
        return Err(Error::Protocol);
    }
    let response = match root.child("response") {
        Some(x) => x,
        None => {
            return Err(Error::Protocol);
        },
    };
    let status = match read_status(response) {
        Some(s) => s,
        None => {
            return Err(Error::Protocol);
        },
    };
    let echoed = match &status.tr_ids.client_tr_id {
        Some(t) => text_eq(t.as_str(), sent),
        None => false,
    };
    if !echoed {
        return Err(Error::Protocol);
    }
    read_response(response)
}

} // verus!
