//! Requests as plain values: what is to be sent, for whoever holds the HTTP
//! client to send.
use crate::endpoints::{PORTAL_URL, SERVICE_URL, SSO_URL};
use crate::json::{Json, JsonView};
use crate::text::followed_by;
use vstd::prelude::*;

verus! {

/// The method of a request.
#[derive(Clone, Copy, Debug, PartialEq, Eq)]
pub enum Method {
    Get,
    Post,
}

/// How much of the response is read.
#[derive(Clone, Copy, Debug, PartialEq, Eq)]
pub enum Reading {
    /// Only that it came, and where it ended.
    Nothing,
    /// Its body as text.
    Text,
    /// Its body as a JSON document.
    Json,
}

/// A request to one of the two origins.
#[derive(Debug, PartialEq, Eq)]
pub struct Request {
    pub method: Method,
    pub url: String,
    /// The parameters of the query string, in their order.
    pub query: Vec<(String, String)>,
    /// The fields of the form that is sent as the body; none for a request
    /// without a body.
    pub form: Vec<(String, String)>,
    /// The headers that are set besides those of the client.
    pub headers: Vec<(String, String)>,
    pub reads: Reading,
}

/// What a [`Request`] holds.
pub struct RequestView {
    pub method: Method,
    pub url: Seq<char>,
    pub query: Seq<(Seq<char>, Seq<char>)>,
    pub form: Seq<(Seq<char>, Seq<char>)>,
    pub headers: Seq<(Seq<char>, Seq<char>)>,
    pub reads: Reading,
}

impl View for Request {
    type V = RequestView;

    open spec fn view(&self) -> RequestView {
        RequestView {
            method: self.method,
            url: self.url@,
            query: self.query.deep_view(),
            form: self.form.deep_view(),
            headers: self.headers.deep_view(),
            reads: self.reads,
        }
    }
}

/// What came of a request of which nothing is read.
#[derive(Debug, PartialEq, Eq)]
pub enum Arrival {
    /// The request could not be sent, or no response came back.
    Unreachable { cause: String },
    /// A response came. `final_url` is where it ended, after any redirects.
    Arrived { final_url: String },
}

/// What an [`Arrival`] holds.
pub enum ArrivalView {
    Unreachable { cause: Seq<char> },
    Arrived { final_url: Seq<char> },
}

impl View for Arrival {
    type V = ArrivalView;

    open spec fn view(&self) -> ArrivalView {
        match *self {
            Arrival::Unreachable { cause } => ArrivalView::Unreachable { cause: cause@ },
            Arrival::Arrived { final_url } => ArrivalView::Arrived { final_url: final_url@ },
        }
    }
}

/// What came of a request whose body is read as text.
#[derive(Debug, PartialEq, Eq)]
pub enum PageReply {
    /// The request could not be sent, or no response came back.
    Unreachable { cause: String },
    /// A response came, but its body could not be read.
    Unreadable { cause: String },
    /// A page came. `final_url` is where the request ended, after any redirects.
    Page { final_url: String, html: String },
}

/// What a [`PageReply`] holds.
pub enum PageReplyView {
    Unreachable { cause: Seq<char> },
    Unreadable { cause: Seq<char> },
    Page { final_url: Seq<char>, html: Seq<char> },
}

impl View for PageReply {
    type V = PageReplyView;

    open spec fn view(&self) -> PageReplyView {
        match *self {
            PageReply::Unreachable { cause } => PageReplyView::Unreachable { cause: cause@ },
            PageReply::Unreadable { cause } => PageReplyView::Unreadable { cause: cause@ },
            PageReply::Page { final_url, html } => PageReplyView::Page {
                final_url: final_url@,
                html: html@,
            },
        }
    }
}

/// What came of a request whose body is read as a JSON document.
#[derive(Debug, PartialEq, Eq)]
pub enum JsonReply {
    /// The request could not be sent, or no response came back.
    Unreachable { cause: String },
    /// A response came, but its body is no JSON document.
    Unreadable { cause: String },
    /// A document came. `rendered` is its text, for diagnostics.
    Document { json: Json, rendered: String },
}

/// What a [`JsonReply`] holds.
pub enum JsonReplyView {
    Unreachable { cause: Seq<char> },
    Unreadable { cause: Seq<char> },
    Document { json: JsonView, rendered: Seq<char> },
}

impl View for JsonReply {
    type V = JsonReplyView;

    open spec fn view(&self) -> JsonReplyView {
        match *self {
            JsonReply::Unreachable { cause } => JsonReplyView::Unreachable { cause: cause@ },
            JsonReply::Unreadable { cause } => JsonReplyView::Unreadable { cause: cause@ },
            JsonReply::Document { json, rendered } => JsonReplyView::Document {
                json: json@,
                rendered: rendered@,
            },
        }
    }
}

/// The query of both requests to the authentication service: the service that
/// the sign-in is for.
pub open spec fn service_query() -> Seq<(Seq<char>, Seq<char>)> {
    seq![("service"@, SERVICE_URL@)]
}

/// The header by which a request says that a script sent it.
pub open spec fn script_marker() -> (Seq<char>, Seq<char>) {
    ("X-Requested-With"@, "XMLHttpRequest"@)
}

/// The first request of a sign-in: the portal's root, for its first cookies.
pub open spec fn portal_root_request() -> RequestView {
    RequestView {
        method: Method::Get,
        url: PORTAL_URL@,
        query: seq![],
        form: seq![],
        headers: seq![],
        reads: Reading::Nothing,
    }
}

/// The request for the sign-in page.
pub open spec fn login_page_request() -> RequestView {
    RequestView {
        method: Method::Get,
        url: SSO_URL@,
        query: service_query(),
        form: seq![],
        headers: seq![],
        reads: Reading::Text,
    }
}

/// The fields of the sign-in form: the credentials, the `execution` value of
/// the page, the event, and the page's `lt` value where it has one.
pub open spec fn login_form(
    username: Seq<char>,
    password: Seq<char>,
    execution: Seq<char>,
    ticket: Option<Seq<char>>,
) -> Seq<(Seq<char>, Seq<char>)> {
    let always = seq![
        ("username"@, username),
        ("password"@, password),
        ("execution"@, execution),
        ("_eventId"@, "submit"@),
    ];
    match ticket {
        Some(value) => always.push(("lt"@, value)),
        None => always,
    }
}

/// The request that submits the sign-in form. `referer` is where the request
/// for the sign-in page ended.
pub open spec fn submit_request(
    username: Seq<char>,
    password: Seq<char>,
    execution: Seq<char>,
    ticket: Option<Seq<char>>,
    referer: Seq<char>,
) -> RequestView {
    RequestView {
        method: Method::Post,
        url: SSO_URL@,
        query: service_query(),
        form: login_form(username, password, execution, ticket),
        headers: seq![("Referer"@, referer)],
        reads: Reading::Nothing,
    }
}

/// The request for the portal's root page once the user is signed in.
pub open spec fn portal_page_request() -> RequestView {
    RequestView {
        method: Method::Get,
        url: PORTAL_URL@,
        query: seq![],
        form: seq![],
        headers: seq![],
        reads: Reading::Text,
    }
}

/// The request for the listing of the user's profiles.
pub open spec fn profiles_request(csrf: Seq<char>) -> RequestView {
    RequestView {
        method: Method::Get,
        url: PORTAL_URL@ + "/api/person/profiles"@,
        query: seq![],
        form: seq![],
        headers: seq![("X-CSRF-TOKEN"@, csrf), script_marker()],
        reads: Reading::Json,
    }
}

/// The request that asks `path` of the portal's JSON endpoints for a session
/// with the security token `csrf` and the profile `profile_id`.
pub open spec fn api_request(path: Seq<char>, csrf: Seq<char>, profile_id: Seq<char>) -> RequestView {
    RequestView {
        method: Method::Get,
        url: PORTAL_URL@ + path,
        query: seq![],
        form: seq![],
        headers: seq![
            ("X-CSRF-TOKEN"@, csrf),
            ("X-Profile"@, profile_id),
            script_marker(),
            ("Accept"@, "application/json"@),
        ],
        reads: Reading::Json,
    }
}

/// A name with its value.
pub fn pair(name: &str, value: &str) -> (named: (String, String))
    ensures
        named.deep_view() == (name@, value@),
{
    (String::from_str(name), String::from_str(value))
}

/// No pairs.
pub fn no_pairs() -> (pairs: Vec<(String, String)>)
    ensures
        pairs.deep_view() == Seq::<(Seq<char>, Seq<char>)>::empty(),
{
    let pairs: Vec<(String, String)> = Vec::new();
    assert(pairs.deep_view() =~= Seq::<(Seq<char>, Seq<char>)>::empty());
    pairs
}

/// Puts one more pair behind `pairs`.
pub fn add_pair(pairs: &mut Vec<(String, String)>, name: &str, value: &str)
    ensures
        final(pairs).deep_view() == old(pairs).deep_view().push((name@, value@)),
{
    let named = pair(name, value);
    pairs.push(named);
    assert(pairs.deep_view() =~= old(pairs).deep_view().push((name@, value@)));
}

impl Request {
    /// The first request of a sign-in.
    pub fn portal_root() -> (request: Request)
        ensures
            request@ == portal_root_request(),
    {
        Request {
            method: Method::Get,
            url: String::from_str(PORTAL_URL),
            query: no_pairs(),
            form: no_pairs(),
            headers: no_pairs(),
            reads: Reading::Nothing,
        }
    }

    /// The request for the sign-in page.
    pub fn login_page() -> (request: Request)
        ensures
            request@ == login_page_request(),
    {
        let mut query = no_pairs();
        add_pair(&mut query, "service", SERVICE_URL);
        assert(query.deep_view() =~= service_query());
        Request {
            method: Method::Get,
            url: String::from_str(SSO_URL),
            query,
            form: no_pairs(),
            headers: no_pairs(),
            reads: Reading::Text,
        }
    }

    /// The request that submits the sign-in form.
    pub fn submit(
        username: &str,
        password: &str,
        execution: &str,
        ticket: &Option<String>,
        referer: &str,
    ) -> (request: Request)
        ensures
            request@ == submit_request(
                username@,
                password@,
                execution@,
                ticket.deep_view(),
                referer@,
            ),
    {
        let mut query = no_pairs();
        add_pair(&mut query, "service", SERVICE_URL);
        assert(query.deep_view() =~= service_query());
        let mut form = no_pairs();
        add_pair(&mut form, "username", username);
        add_pair(&mut form, "password", password);
        add_pair(&mut form, "execution", execution);
        add_pair(&mut form, "_eventId", "submit");
        match ticket {
            Some(value) => {
                add_pair(&mut form, "lt", value.as_str());
            },
            None => {},
        }
        assert(form.deep_view() =~= login_form(
            username@,
            password@,
            execution@,
            ticket.deep_view(),
        ));
        let mut headers = no_pairs();
        add_pair(&mut headers, "Referer", referer);
        assert(headers.deep_view() =~= seq![("Referer"@, referer@)]);
        Request {
            method: Method::Post,
            url: String::from_str(SSO_URL),
            query,
            form,
            headers,
            reads: Reading::Nothing,
        }
    }

    /// The request for the portal's root page once the user is signed in.
    pub fn portal_page() -> (request: Request)
        ensures
            request@ == portal_page_request(),
    {
        Request {
            method: Method::Get,
            url: String::from_str(PORTAL_URL),
            query: no_pairs(),
            form: no_pairs(),
            headers: no_pairs(),
            reads: Reading::Text,
        }
    }

    /// The request for the listing of the user's profiles.
    pub fn profiles(csrf: &str) -> (request: Request)
        ensures
            request@ == profiles_request(csrf@),
    {
        let mut headers = no_pairs();
        add_pair(&mut headers, "X-CSRF-TOKEN", csrf);
        add_pair(&mut headers, "X-Requested-With", "XMLHttpRequest");
        assert(headers.deep_view() =~= seq![("X-CSRF-TOKEN"@, csrf@), script_marker()]);
        Request {
            method: Method::Get,
            url: followed_by(PORTAL_URL, "/api/person/profiles"),
            query: no_pairs(),
            form: no_pairs(),
            headers,
            reads: Reading::Json,
        }
    }
}

/// The request that asks `path` of the portal's JSON endpoints: to the portal's
/// origin, with the session's security token and profile, marked as sent by a
/// script and as taking JSON.
pub fn api_get(path: &str, csrf: &str, profile_id: &str) -> (request: Request)
    ensures
        request@ == api_request(path@, csrf@, profile_id@),
{
    let mut headers = no_pairs();
    add_pair(&mut headers, "X-CSRF-TOKEN", csrf);
    add_pair(&mut headers, "X-Profile", profile_id);
    add_pair(&mut headers, "X-Requested-With", "XMLHttpRequest");
    add_pair(&mut headers, "Accept", "application/json");
    assert(headers.deep_view() =~= seq![
        ("X-CSRF-TOKEN"@, csrf@),
        ("X-Profile"@, profile_id@),
        script_marker(),
        ("Accept"@, "application/json"@),
    ]);
    Request {
        method: Method::Get,
        url: followed_by(PORTAL_URL, path),
        query: no_pairs(),
        form: no_pairs(),
        headers,
        reads: Reading::Json,
    }
}

} // verus!
