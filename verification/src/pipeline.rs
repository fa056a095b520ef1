//! The request pipeline: log in if needed, build the request, read the answer.
//!
//! The pipeline never sends anything. It says which request goes out next and
//! takes the transport's reply back as a value, so every decision of a call is
//! a function from state and reply to state and result.

use vstd::prelude::*;
use http_client::http_types::Error as TransportError;
use crate::address::{resolve, resolved};
use crate::codec::{find, first_value, pairs, text_of, Arg, Field, Query, Scalar};
use crate::error::{ApiError, Error};
use crate::session::{Credential, CredentialStore};
use crate::status::{classified, classify, login_table, StatusOverrides};
use crate::text::{parse_u64, parsed_u64};

verus! {

/// The HTTP method of a call.
#[derive(Clone, Copy, Debug, PartialEq, Eq, Structural)]
pub enum Method {
    Get,
    Post,
}

/// How the body of a successful answer is read.
#[derive(Clone, Copy, Debug, PartialEq, Eq, Structural)]
pub enum Decode {
    /// The body is not read.
    Discard,
    /// The body is the result, as text.
    Text,
    /// The body is a JSON document, handed on for typed decoding.
    Json,
    /// The body is `0` or `1`.
    Flag,
    /// The body is an unsigned decimal number.
    Number,
}

/// One operation of the API: where it goes, what it carries and how its
/// answer is read.
#[derive(Debug)]
pub struct Call {
    pub method: Method,
    /// The path below the API prefix.
    pub path: &'static str,
    pub query: Option<Query>,
    /// A JSON document, already serialised.
    pub body: Option<String>,
    pub overrides: StatusOverrides,
    pub decode: Decode,
    /// What a body of the wrong shape is reported with.
    pub explain: &'static str,
}

/// The fields of an optional query.
pub open spec fn fields_of(query: Option<Query>) -> Option<Seq<(Seq<char>, Seq<char>)>> {
    match query {
        Some(q) => Some(q@),
        None => None,
    }
}

/// A request as the transport must send it.
#[derive(Debug)]
pub struct Request {
    pub method: Method,
    /// The absolute address.
    pub url: String,
    /// The session token, sent as the cookie header.
    pub cookie: Option<String>,
    pub query: Option<Query>,
    pub body: Option<String>,
}

/// What a request holds.
pub struct RequestView {
    pub method: Method,
    pub url: Seq<char>,
    pub cookie: Option<Seq<char>>,
    pub query: Option<Seq<(Seq<char>, Seq<char>)>>,
    pub body: Option<Seq<char>>,
}

impl View for Request {
    type V = RequestView;

    open spec fn view(&self) -> RequestView {
        RequestView {
            method: self.method,
            url: self.url@,
            cookie: text_of(self.cookie),
            query: fields_of(self.query),
            body: text_of(self.body),
        }
    }
}

/// The request that goes out next.
#[derive(Debug)]
pub enum Step {
    /// No token is cached: log in first, then ask again.
    Login(Request),
    /// A token is cached: this is the call's own request.
    Dispatch(Request),
}

/// What the transport came back with.
#[derive(Debug)]
pub enum Reply {
    /// The exchange failed below HTTP.
    Failed(TransportError),
    /// An answer arrived: its status code and its headers, names in lower
    /// case.
    Answered { status: u16, headers: Vec<Field> },
}

/// The result of a call.
#[derive(Debug)]
pub enum Payload {
    Nothing,
    Text(String),
    Json(String),
    Flag(bool),
    Number(u64),
}

/// The path of the login call.
pub open spec fn login_path() -> Seq<char> {
    "auth/login"@
}

/// The prefix under which every path of the API lies.
pub open spec fn api_prefix() -> Seq<char> {
    "api/v2/"@
}

/// The login request: a GET with the credentials as query, no cookie.
pub open spec fn login_request(
    address: Seq<char>,
    username: Seq<char>,
    password: Seq<char>,
) -> RequestView {
    RequestView {
        method: Method::Get,
        url: address,
        cookie: None,
        query: Some(
            Seq::<(Seq<char>, Seq<char>)>::empty().push(("username"@, username)).push(
                ("password"@, password),
            ),
        ),
        body: None,
    }
}

/// The request of a call: its method, query and body, with the token attached.
pub open spec fn call_request(address: Seq<char>, token: Seq<char>, call: Call) -> RequestView {
    RequestView {
        method: call.method,
        url: address,
        cookie: Some(token),
        query: fields_of(call.query),
        body: text_of(call.body),
    }
}

/// The name of the header that carries the session token of a login answer.
pub open spec fn session_header() -> Seq<char> {
    "set-cookie"@
}

/// What the login explains a missing session cookie with.
pub open spec fn missing_cookie() -> Error {
    Error::BadResponse { explain: "Failed to extract cookie from login response" }
}

/// The token that a login reply yields, or the failure it stands for: the
/// transport's own failure; else what the status means to the login call, on
/// which 403 is a banned address; else the value of the first session header;
/// else, without such a header, a bad response.
pub open spec fn login_token(reply: Reply) -> Result<Seq<char>, Error> {
    match reply {
        Reply::Failed(e) => Err(Error::HttpError(e)),
        Reply::Answered { status, headers } => match classified(status, login_table()) {
            Some(e) => Err(e),
            None => match first_value(pairs(headers@), session_header()) {
                Some(token) => Ok(token),
                None => Err(missing_cookie()),
            },
        },
    }
}

/// Whether the answer to a call lets its body be read: the transport's failure
/// and every classified status end the call.
pub open spec fn accepted(reply: Reply, overrides: Map<u16, ApiError>) -> Result<(), Error> {
    match reply {
        Reply::Failed(e) => Err(Error::HttpError(e)),
        Reply::Answered { status, headers } => match classified(status, overrides) {
            Some(e) => Err(e),
            None => Ok(()),
        },
    }
}

/// Whether a text is the one character `c`.
pub open spec fn is_char(body: Seq<char>, c: char) -> bool {
    body.len() == 1 && body[0] == c
}

/// The boolean of a `0` / `1` body; any other text is a bad response.
pub open spec fn flag_of(body: Seq<char>, explain: &'static str) -> Result<bool, Error> {
    if is_char(body, '0') {
        Ok(false)
    } else if is_char(body, '1') {
        Ok(true)
    } else {
        Err(Error::BadResponse { explain })
    }
}

/// The number of a decimal body; any other text is a bad response.
pub open spec fn number_of(body: Seq<char>, explain: &'static str) -> Result<u64, Error> {
    match parsed_u64(body) {
        Some(n) => Ok(n),
        None => Err(Error::BadResponse { explain }),
    }
}

/// Reads a `0` / `1` body.
pub fn decode_flag(body: &str, explain: &'static str) -> (r: Result<bool, Error>)
    ensures
        r == flag_of(body@, explain),
{
    if body.unicode_len() == 1 {
        let c = body.get_char(0);
        if c == '0' {
            return Ok(false);
        }
        if c == '1' {
            return Ok(true);
        }
    }
    Err(Error::BadResponse { explain })
}

/// Reads an unsigned decimal body.
pub fn decode_number(body: &str, explain: &'static str) -> (r: Result<u64, Error>)
    ensures
        r == number_of(body@, explain),
{
    match parse_u64(body) {
        Some(n) => Ok(n),
        None => Err(Error::BadResponse { explain }),
    }
}

impl Payload {
    /// Whether a payload is what a body decodes to under a decoding.
    pub open spec fn is_decoded(self, decode: Decode, body: Seq<char>) -> bool {
        match decode {
            Decode::Discard => self is Nothing,
            Decode::Text => self matches Payload::Text(s) && s@ == body,
            Decode::Json => self matches Payload::Json(s) && s@ == body,
            Decode::Flag => self matches Payload::Flag(b) && is_char(
                body,
                if b {
                    '1'
                } else {
                    '0'
                },
            ),
            Decode::Number => self matches Payload::Number(n) && parsed_u64(body) == Some(n),
        }
    }
}

impl Payload {
    /// Whether two payloads are equal in kind and content.
    pub open spec fn same_as(self, other: Payload) -> bool {
        match (self, other) {
            (Payload::Nothing, Payload::Nothing) => true,
            (Payload::Text(a), Payload::Text(b)) => a@ == b@,
            (Payload::Json(a), Payload::Json(b)) => a@ == b@,
            (Payload::Flag(a), Payload::Flag(b)) => a == b,
            (Payload::Number(a), Payload::Number(b)) => a == b,
            _ => false,
        }
    }
}

/// Whether a decoding takes a body: every body unless a flag or a number is
/// expected and the text is none.
pub open spec fn decodable(decode: Decode, body: Seq<char>) -> bool {
    match decode {
        Decode::Flag => is_char(body, '0') || is_char(body, '1'),
        Decode::Number => parsed_u64(body) is Some,
        _ => true,
    }
}

impl Call {
    /// Whether the call is made of exactly these parts.
    pub open spec fn shaped(
        self,
        method: Method,
        path: Seq<char>,
        query: Option<Seq<(Seq<char>, Seq<char>)>>,
        body: Option<Seq<char>>,
        overrides: Map<u16, ApiError>,
        decode: Decode,
        explain: Seq<char>,
    ) -> bool {
        &&& self.method == method
        &&& self.path@ == path
        &&& fields_of(self.query) == query
        &&& text_of(self.body) == body
        &&& self.overrides@ == overrides
        &&& self.decode == decode
        &&& self.explain@ == explain
    }

    /// A GET of `path`: no body, no overrides, the answer's body discarded.
    pub fn get(path: &'static str, query: Option<Query>) -> (call: Call)
        ensures
            call.shaped(
                Method::Get,
                path@,
                fields_of(query),
                None,
                Map::empty(),
                Decode::Discard,
                ""@,
            ),
    {
        Call {
            method: Method::Get,
            path,
            query,
            body: None,
            overrides: StatusOverrides::none(),
            decode: Decode::Discard,
            explain: "",
        }
    }

    /// A POST to `path` with a JSON body: no overrides, the answer's body
    /// discarded.
    pub fn post(path: &'static str, query: Option<Query>, body: Option<String>) -> (call: Call)
        ensures
            call.shaped(
                Method::Post,
                path@,
                fields_of(query),
                text_of(body),
                Map::empty(),
                Decode::Discard,
                ""@,
            ),
    {
        Call {
            method: Method::Post,
            path,
            query,
            body,
            overrides: StatusOverrides::none(),
            decode: Decode::Discard,
            explain: "",
        }
    }

    /// The call with its status overrides replaced.
    pub fn map_status(self, overrides: StatusOverrides) -> (call: Call)
        ensures
            call.shaped(
                self.method,
                self.path@,
                fields_of(self.query),
                text_of(self.body),
                overrides@,
                self.decode,
                self.explain@,
            ),
    {
        Call {
            method: self.method,
            path: self.path,
            query: self.query,
            body: self.body,
            overrides,
            decode: self.decode,
            explain: self.explain,
        }
    }

    /// The call with its decoding, and what a body of the wrong shape is
    /// reported with, replaced.
    pub fn expecting(self, decode: Decode, explain: &'static str) -> (call: Call)
        ensures
            call.shaped(
                self.method,
                self.path@,
                fields_of(self.query),
                text_of(self.body),
                self.overrides@,
                decode,
                explain@,
            ),
    {
        Call {
            method: self.method,
            path: self.path,
            query: self.query,
            body: self.body,
            overrides: self.overrides,
            decode,
            explain,
        }
    }

    /// Judges the answer to this call by its status, before any body is read.
    pub fn accept(&self, reply: Reply) -> (r: Result<(), Error>)
        ensures
            r == accepted(reply, self.overrides@),
    {
        match reply {
            Reply::Failed(e) => Err(Error::HttpError(e)),
            Reply::Answered { status, headers } => match classify(status, &self.overrides) {
                Some(e) => Err(e),
                None => Ok(()),
            },
        }
    }

    /// Whether the body of an accepted answer has to be read: not where the
    /// call discards it.
    pub fn reads_body(&self) -> (r: bool)
        ensures
            r == (self.decode != Decode::Discard),
    {
        match self.decode {
            Decode::Discard => false,
            _ => true,
        }
    }

    /// The failure that a body of the wrong shape is reported with.
    pub fn bad_response(&self) -> (r: Error)
        ensures
            r == (Error::BadResponse { explain: self.explain }),
    {
        Error::BadResponse { explain: self.explain }
    }

    /// Decodes the body of an accepted answer as this call expects it.
    pub fn decode(&self, body: String) -> (r: Result<Payload, Error>)
        ensures
            match r {
                Ok(payload) => decodable(self.decode, body@) && payload.is_decoded(
                    self.decode,
                    body@,
                ),
                Err(e) => !decodable(self.decode, body@) && e == (Error::BadResponse {
                    explain: self.explain,
                }),
            },
    {
        match self.decode {
            Decode::Discard => Ok(Payload::Nothing),
            Decode::Text => Ok(Payload::Text(body)),
            Decode::Json => Ok(Payload::Json(body)),
            Decode::Flag => match decode_flag(body.as_str(), self.explain) {
                Ok(b) => Ok(Payload::Flag(b)),
                Err(e) => Err(e),
            },
            Decode::Number => match decode_number(body.as_str(), self.explain) {
                Ok(n) => Ok(Payload::Number(n)),
                Err(e) => Err(e),
            },
        }
    }
}

/// The content type a request is sent with: JSON where it has a body, none
/// where it has not.
pub fn content_type(request: &Request) -> (r: Option<&'static str>)
    ensures
        (r is Some) == (request.body is Some),
        r matches Some(t) ==> t@ == "application/json"@,
{
    match &request.body {
        Some(_) => Some("application/json"),
        None => None,
    }
}

/// Builds the login request for an address.
pub fn build_login_request(address: String, credential: &Credential) -> (r: Request)
    ensures
        r@ == login_request(address@, credential.username@, credential.password@),
{
    let username = Arg::Scalar(Scalar::Text(credential.username.clone()));
    let password = Arg::Scalar(Scalar::Text(credential.password.clone()));
    let query = Query::new().with("username", &username).with("password", &password);
    Request { method: Method::Get, url: address, cookie: None, query: Some(query), body: None }
}

/// Builds the request of a call for an address, with the token attached.
pub fn build_call_request(address: String, token: String, call: &Call) -> (r: Request)
    ensures
        r@ == call_request(address@, token@, *call),
{
    let query = match &call.query {
        Some(q) => Some(q.copy()),
        None => None,
    };
    let body = match &call.body {
        Some(b) => Some(b.clone()),
        None => None,
    };
    Request { method: call.method, url: address, cookie: Some(token), query, body }
}

/// The client: the API's root address and the credential store.
#[derive(Debug)]
pub struct Api {
    root: String,
    store: CredentialStore,
}

/// What a client holds.
pub struct ApiView {
    /// The address under which the API's paths lie.
    pub root: Seq<char>,
    pub username: Seq<char>,
    pub password: Seq<char>,
    /// The cached session token.
    pub session: Option<Seq<char>>,
}

impl View for Api {
    type V = ApiView;

    closed spec fn view(&self) -> ApiView {
        ApiView {
            root: self.root@,
            username: self.store.username(),
            password: self.store.password(),
            session: self.store.session(),
        }
    }
}

/// The request that goes out next for a call: the login request while no
/// token is cached, the call's own request with the token from then on; none
/// where the address cannot be resolved.
pub open spec fn planned(state: ApiView, call: Call) -> Option<(bool, RequestView)> {
    match state.session {
        None => match resolved(state.root, login_path()) {
            Some(address) => Some((true, login_request(address, state.username, state.password))),
            None => None,
        },
        Some(token) => match resolved(state.root, call.path@) {
            Some(address) => Some((false, call_request(address, token, call))),
            None => None,
        },
    }
}

/// A step as a pair: whether it is the login, and the request.
pub open spec fn step_of(step: Option<Step>) -> Option<(bool, RequestView)> {
    match step {
        Some(Step::Login(request)) => Some((true, request@)),
        Some(Step::Dispatch(request)) => Some((false, request@)),
        None => None,
    }
}

/// The client after a login reply: the reply's token is cached where none
/// was; everything else stays, and so does a token that was there.
pub open spec fn after_login(state: ApiView, reply: Reply) -> ApiView {
    match (state.session, login_token(reply)) {
        (None, Ok(token)) => ApiView { session: Some(token), ..state },
        _ => state,
    }
}

/// The client after a run of login replies, in order.
pub open spec fn after_logins(state: ApiView, replies: Seq<Reply>) -> ApiView
    decreases replies.len(),
{
    if replies.len() == 0 {
        state
    } else {
        after_login(after_logins(state, replies.drop_last()), replies.last())
    }
}

impl Api {
    /// A client that logs in with `credential` on first use. None where the
    /// endpoint is no address under which the API prefix can be resolved.
    pub fn new(endpoint: &str, credential: Credential) -> (r: Option<Api>)
        ensures
            match r {
                Some(api) => resolved(endpoint@, api_prefix()) == Some(api@.root)
                    && api@.username == credential.username@ && api@.password
                    == credential.password@ && api@.session is None,
                None => resolved(endpoint@, api_prefix()) is None,
            },
    {
        match resolve(endpoint, "api/v2/") {
            Some(root) => Some(Api { root, store: CredentialStore::new(credential) }),
            None => None,
        }
    }

    /// A client around a session token obtained elsewhere; it never logs in.
    /// None where the endpoint is no address under which the API prefix can be
    /// resolved.
    pub fn new_with_cookie(endpoint: &str, cookie: String) -> (r: Option<Api>)
        ensures
            match r {
                Some(api) => resolved(endpoint@, api_prefix()) == Some(api@.root)
                    && api@.username == Seq::<char>::empty() && api@.password == Seq::<
                    char,
                >::empty() && api@.session == Some(cookie@),
                None => resolved(endpoint@, api_prefix()) is None,
            },
    {
        match resolve(endpoint, "api/v2/") {
            Some(root) => Some(Api { root, store: CredentialStore::with_token(cookie) }),
            None => None,
        }
    }

    /// The cached session token.
    pub fn get_cookie(&self) -> (r: Result<Option<String>, Error>)
        ensures
            r matches Ok(token) && text_of(token) == self@.session,
    {
        Ok(self.store.get_session())
    }

    /// The absolute address of a path of the API.
    pub fn url(&self, path: &str) -> (r: Option<String>)
        ensures
            text_of(r) == resolved(self@.root, path@),
    {
        resolve(self.root.as_str(), path)
    }

    /// The login request, while no token is cached and the login address can
    /// be resolved.
    pub fn login(&self) -> (r: Option<Request>)
        ensures
            match r {
                Some(request) => self@.session is None && resolved(self@.root, login_path())
                    == Some(request@.url) && request@ == login_request(
                    request@.url,
                    self@.username,
                    self@.password,
                ),
                None => self@.session is Some || resolved(self@.root, login_path()) is None,
            },
    {
        if self.store.get_session().is_some() {
            return None;
        }
        match self.url("auth/login") {
            Some(address) => Some(build_login_request(address, self.store.credential())),
            None => None,
        }
    }

    /// The request that goes out next for `call`.
    pub fn request(&self, call: &Call) -> (r: Option<Step>)
        ensures
            step_of(r) == planned(self@, *call),
    {
        match self.store.get_session() {
            None => match self.login() {
                Some(request) => Some(Step::Login(request)),
                None => None,
            },
            Some(token) => match self.url(call.path) {
                Some(address) => Some(Step::Dispatch(build_call_request(address, token, call))),
                None => None,
            },
        }
    }

    /// Takes the reply to a login request: caches its token unless one is
    /// cached already, and fails as the reply says without touching the slot.
    pub fn complete_login(&mut self, reply: Reply) -> (r: Result<(), Error>)
        ensures
            final(self)@ == after_login(old(self)@, reply),
            r == (match login_token(reply) {
                Ok(_) => Ok::<(), Error>(()),
                Err(e) => Err(e),
            }),
    {
        match reply {
            Reply::Failed(e) => Err(Error::HttpError(e)),
            Reply::Answered { status, headers } => match classify(
                status,
                &StatusOverrides::login(),
            ) {
                Some(e) => Err(e),
                None => match find(&headers, "set-cookie") {
                    Some(token) => {
                        self.store.install(token);
                        Ok(())
                    },
                    None => Err(
                        Error::BadResponse {
                            explain: "Failed to extract cookie from login response",
                        },
                    ),
                },
            },
        }
    }
}

/// A cached token is never replaced: whatever login replies arrive afterwards,
/// and in whatever order, the client stays as it is.
pub proof fn lemma_session_set_once(state: ApiView, replies: Seq<Reply>)
    requires
        state.session is Some,
    ensures
        after_logins(state, replies) == state,
    decreases replies.len(),
{
    if replies.len() > 0 {
        lemma_session_set_once(state, replies.drop_last());
    }
}

/// Once a token is cached no login request is issued: every step is the
/// call's own request, after any further login replies too.
pub proof fn lemma_no_login_once_cached(state: ApiView, replies: Seq<Reply>, call: Call)
    requires
        state.session is Some,
    ensures
        planned(after_logins(state, replies), call) matches Some(step) ==> !step.0
            && step.1.cookie == state.session,
{
    lemma_session_set_once(state, replies);
}

/// Without a cached token the first request of any call is the login, to the
/// login address with the credentials. After a reply that yields a token the
/// same call gets its own request, carrying that token.
pub proof fn lemma_login_comes_first(state: ApiView, call: Call, reply: Reply)
    requires
        state.session is None,
    ensures
        planned(state, call) matches Some(step) ==> step.0 && resolved(
            state.root,
            login_path(),
        ) == Some(step.1.url) && step.1 == login_request(
            step.1.url,
            state.username,
            state.password,
        ),
        login_token(reply) matches Ok(token) ==> (planned(after_login(state, reply), call)
            matches Some(step) ==> !step.0 && step.1.cookie == Some(token)),
{
}

/// A failed login leaves nothing behind: the client is as before, and the
/// next call starts with the login again.
pub proof fn lemma_failed_login_keeps_state(state: ApiView, call: Call, reply: Reply)
    requires
        login_token(reply) is Err,
    ensures
        after_login(state, reply) == state,
        planned(after_login(state, reply), call) == planned(state, call),
{
}

/// Decoding is repeatable: two answers with the same body, read for the same
/// call, give payloads equal in kind and content.
pub proof fn lemma_same_body_same_payload(
    decode: Decode,
    body: Seq<char>,
    first: Payload,
    second: Payload,
)
    requires
        first.is_decoded(decode, body),
        second.is_decoded(decode, body),
    ensures
        first.same_as(second),
{
}

/// A transport failure is handed on as it is, from a login and from a call.
pub proof fn lemma_transport_failure_surfaces(
    failure: TransportError,
    overrides: Map<u16, ApiError>,
)
    ensures
        login_token(Reply::Failed(failure)) == Err::<Seq<char>, Error>(Error::HttpError(failure)),
        accepted(Reply::Failed(failure), overrides) == Err::<(), Error>(
            Error::HttpError(failure),
        ),
{
}

} // verus!
