//! Signing in through the authentication service, as a machine: it is handed
//! what came of the last request and says what to do next.
//!
//! The steps, in their order: set up a client; ask the portal's root for its
//! first cookies; load the sign-in page; read its hidden form values; submit the
//! credentials; see where the response ended; load the portal's page and read
//! its security token; load the profile listing and find the profile; ask for
//! the student's data. The first failure ends the sign-in. Nothing is kept of a
//! sign-in that failed.
use crate::api::{api_outcome, api_result, STUDENT_DATA_PATH};
use crate::endpoints::{at_cas_host, host_of, is_cas_host, url_host, CAS_HOST};
use crate::errors::{ApiError, ApiErrorView, AuthError, AuthErrorView, CasRequest};
use crate::http::{
    api_get, api_request, login_page_request, portal_page_request, portal_root_request,
    profiles_request, submit_request, Arrival, ArrivalView, JsonReply, JsonReplyView, PageReply,
    PageReplyView, Request, RequestView,
};
use crate::json::{Json, JsonView};
use crate::profile::{find_profile_id, profile_id_in};
use crate::tokens::{
    extract_cas_tokens, extract_csrf, login_tokens_in, security_token_in, token_view, tokens_view,
    MissingToken,
};
use vstd::prelude::*;

verus! {

/// How far a sign-in has come: which answer it waits for, and what it still
/// needs of what it has learned.
#[derive(Debug, PartialEq, Eq)]
pub enum LoginState {
    /// Waiting for the client to be set up.
    Opening { username: String, password: String },
    /// Waiting for the portal's root.
    ContactingPortal { username: String, password: String },
    /// Waiting for the sign-in page.
    LoadingLoginPage { username: String, password: String },
    /// The credentials are sent; waiting to see where the response ends.
    Submitting,
    /// Waiting for the portal's page.
    LoadingPortalPage,
    /// Waiting for the profile listing.
    LoadingProfiles { csrf: String },
    /// Waiting for the student's data.
    LoadingStudentData { csrf: String, profile_id: String },
    /// The sign-in has ended, well or not.
    Finished,
}

/// What a [`LoginState`] holds.
pub enum LoginStateView {
    Opening { username: Seq<char>, password: Seq<char> },
    ContactingPortal { username: Seq<char>, password: Seq<char> },
    LoadingLoginPage { username: Seq<char>, password: Seq<char> },
    Submitting,
    LoadingPortalPage,
    LoadingProfiles { csrf: Seq<char> },
    LoadingStudentData { csrf: Seq<char>, profile_id: Seq<char> },
    Finished,
}

impl View for LoginState {
    type V = LoginStateView;

    open spec fn view(&self) -> LoginStateView {
        match *self {
            LoginState::Opening { username, password } => LoginStateView::Opening {
                username: username@,
                password: password@,
            },
            LoginState::ContactingPortal { username, password } => LoginStateView::ContactingPortal {
                username: username@,
                password: password@,
            },
            LoginState::LoadingLoginPage { username, password } => LoginStateView::LoadingLoginPage {
                username: username@,
                password: password@,
            },
            LoginState::Submitting => LoginStateView::Submitting,
            LoginState::LoadingPortalPage => LoginStateView::LoadingPortalPage,
            LoginState::LoadingProfiles { csrf } => LoginStateView::LoadingProfiles { csrf: csrf@ },
            LoginState::LoadingStudentData { csrf, profile_id } => LoginStateView::LoadingStudentData {
                csrf: csrf@,
                profile_id: profile_id@,
            },
            LoginState::Finished => LoginStateView::Finished,
        }
    }
}

/// What came of the last thing that the sign-in asked for.
#[derive(Debug, PartialEq, Eq)]
pub enum LoginEvent {
    /// The client is set up.
    ClientReady,
    /// No client could be set up.
    ClientFailed { cause: String },
    /// The answer to a request of which nothing is read.
    Arrival(Arrival),
    /// The answer to a request for a page.
    Page(PageReply),
    /// The answer to a request for a JSON document.
    Json(JsonReply),
}

/// What a [`LoginEvent`] holds.
pub enum LoginEventView {
    ClientReady,
    ClientFailed { cause: Seq<char> },
    Arrival(ArrivalView),
    Page(PageReplyView),
    Json(JsonReplyView),
}

impl View for LoginEvent {
    type V = LoginEventView;

    open spec fn view(&self) -> LoginEventView {
        match *self {
            LoginEvent::ClientReady => LoginEventView::ClientReady,
            LoginEvent::ClientFailed { cause } => LoginEventView::ClientFailed { cause: cause@ },
            LoginEvent::Arrival(arrival) => LoginEventView::Arrival(arrival@),
            LoginEvent::Page(reply) => LoginEventView::Page(reply@),
            LoginEvent::Json(reply) => LoginEventView::Json(reply@),
        }
    }
}

/// What the sign-in asks for next.
#[derive(Debug, PartialEq, Eq)]
pub enum LoginAction {
    /// Set up a client with an empty cookie jar of its own.
    OpenClient,
    /// Send this request through the sign-in's client and hand back what came
    /// of it.
    Send(Request),
    /// The sign-in is done. Save the session, going on if that fails; put it in
    /// place with the sign-in's client; hand `payload` to the user.
    Succeed { csrf: String, profile_id: String, payload: Json },
    /// The sign-in has failed. Whatever session was in place stays.
    Fail(AuthError),
}

/// What a [`LoginAction`] holds.
pub enum LoginActionView {
    OpenClient,
    Send(RequestView),
    Succeed { csrf: Seq<char>, profile_id: Seq<char>, payload: JsonView },
    Fail(AuthErrorView),
}

impl View for LoginAction {
    type V = LoginActionView;

    open spec fn view(&self) -> LoginActionView {
        match *self {
            LoginAction::OpenClient => LoginActionView::OpenClient,
            LoginAction::Send(request) => LoginActionView::Send(request@),
            LoginAction::Succeed { csrf, profile_id, payload } => LoginActionView::Succeed {
                csrf: csrf@,
                profile_id: profile_id@,
                payload: payload@,
            },
            LoginAction::Fail(error) => LoginActionView::Fail(error@),
        }
    }
}

/// An answer that the machine was not waiting for: the caller handed it
/// something other than what came of the last thing asked.
#[derive(Clone, Copy, Debug, PartialEq, Eq)]
pub struct OutOfTurn;

/// The end of a sign-in that failed with `error`.
pub open spec fn failed(error: AuthErrorView) -> (LoginStateView, LoginActionView) {
    (LoginStateView::Finished, LoginActionView::Fail(error))
}

/// The start of a sign-in: a client is asked for.
pub open spec fn login_start(username: Seq<char>, password: Seq<char>) -> (
    LoginStateView,
    LoginActionView,
) {
    (LoginStateView::Opening { username, password }, LoginActionView::OpenClient)
}

/// What follows the sign-in page once its tokens have been looked for: without
/// the `execution` value the sign-in ends; with it the form is submitted, with
/// the place where the page's request ended as the referer.
pub open spec fn on_login_page(
    username: Seq<char>,
    password: Seq<char>,
    final_url: Seq<char>,
    tokens: Result<(Seq<char>, Option<Seq<char>>), MissingToken>,
) -> (LoginStateView, LoginActionView) {
    match tokens {
        Ok((execution, ticket)) => (
            LoginStateView::Submitting,
            LoginActionView::Send(submit_request(username, password, execution, ticket, final_url)),
        ),
        Err(missing) => failed(AuthErrorView::TokenMissing(missing)),
    }
}

/// What follows the submitted form, by the host at which its response ended.
/// This is all that tells a refusal from a success: a response that is still
/// with the authentication service means that the credentials were refused, and
/// one that is anywhere else, or nowhere that has a host, means that the user is
/// signed in.
pub open spec fn on_verdict(final_url: Seq<char>, host: Option<Seq<char>>) -> (
    LoginStateView,
    LoginActionView,
) {
    if is_cas_host(host) {
        failed(AuthErrorView::InvalidCredentials { final_url })
    } else {
        (LoginStateView::LoadingPortalPage, LoginActionView::Send(portal_page_request()))
    }
}

/// What follows the portal's page once its security token has been looked for.
pub open spec fn on_portal_page(token: Result<Seq<char>, MissingToken>) -> (
    LoginStateView,
    LoginActionView,
) {
    match token {
        Ok(csrf) => (
            LoginStateView::LoadingProfiles { csrf },
            LoginActionView::Send(profiles_request(csrf)),
        ),
        Err(missing) => failed(AuthErrorView::TokenMissing(missing)),
    }
}

/// What follows the profile listing once a profile has been looked for in it.
/// `rendered` is the listing's text, which a failure carries.
pub open spec fn on_profiles(csrf: Seq<char>, found: Option<Seq<char>>, rendered: Seq<char>) -> (
    LoginStateView,
    LoginActionView,
) {
    match found {
        Some(profile_id) => (
            LoginStateView::LoadingStudentData { csrf, profile_id },
            LoginActionView::Send(api_request(STUDENT_DATA_PATH@, csrf, profile_id)),
        ),
        None => failed(AuthErrorView::NoProfile { response: rendered }),
    }
}

/// What follows the answer to the request for the student's data.
pub open spec fn on_student_data(
    csrf: Seq<char>,
    profile_id: Seq<char>,
    outcome: Result<JsonView, ApiErrorView>,
) -> (LoginStateView, LoginActionView) {
    match outcome {
        Ok(payload) => (
            LoginStateView::Finished,
            LoginActionView::Succeed { csrf, profile_id, payload },
        ),
        Err(error) => failed(AuthErrorView::Api(error)),
    }
}

/// The step of a sign-in: where `state` goes on `event` and what is asked for
/// next, or nothing where `event` is not an answer that `state` waits for.
pub open spec fn login_transition(state: LoginStateView, event: LoginEventView) -> Option<
    (LoginStateView, LoginActionView),
> {
    match (state, event) {
        (LoginStateView::Opening { username, password }, LoginEventView::ClientReady) => Some(
            (
                LoginStateView::ContactingPortal { username, password },
                LoginActionView::Send(portal_root_request()),
            ),
        ),
        (LoginStateView::Opening { .. }, LoginEventView::ClientFailed { cause }) => Some(
            failed(AuthErrorView::ClientUnavailable { cause }),
        ),
        (
            LoginStateView::ContactingPortal { username, password },
            LoginEventView::Arrival(ArrivalView::Arrived { .. }),
        ) => Some(
            (
                LoginStateView::LoadingLoginPage { username, password },
                LoginActionView::Send(login_page_request()),
            ),
        ),
        (
            LoginStateView::ContactingPortal { .. },
            LoginEventView::Arrival(ArrivalView::Unreachable { cause }),
        ) => Some(failed(AuthErrorView::PortalUnreachable { cause })),
        (
            LoginStateView::LoadingLoginPage { username, password },
            LoginEventView::Page(PageReplyView::Page { final_url, html }),
        ) => Some(on_login_page(username, password, final_url, login_tokens_in(html))),
        (
            LoginStateView::LoadingLoginPage { .. },
            LoginEventView::Page(PageReplyView::Unreachable { cause }),
        ) => Some(
            failed(AuthErrorView::CasUnreachable { request: CasRequest::LoginPage, cause }),
        ),
        (
            LoginStateView::LoadingLoginPage { .. },
            LoginEventView::Page(PageReplyView::Unreadable { cause }),
        ) => Some(failed(AuthErrorView::Transport { cause })),
        (
            LoginStateView::Submitting,
            LoginEventView::Arrival(ArrivalView::Arrived { final_url }),
        ) => Some(on_verdict(final_url, url_host(final_url))),
        (
            LoginStateView::Submitting,
            LoginEventView::Arrival(ArrivalView::Unreachable { cause }),
        ) => Some(failed(AuthErrorView::CasUnreachable { request: CasRequest::Submit, cause })),
        (
            LoginStateView::LoadingPortalPage,
            LoginEventView::Page(PageReplyView::Page { final_url, html }),
        ) => Some(on_portal_page(security_token_in(html))),
        (
            LoginStateView::LoadingPortalPage,
            LoginEventView::Page(PageReplyView::Unreachable { cause }),
        ) => Some(failed(AuthErrorView::Transport { cause })),
        (
            LoginStateView::LoadingPortalPage,
            LoginEventView::Page(PageReplyView::Unreadable { cause }),
        ) => Some(failed(AuthErrorView::Transport { cause })),
        (
            LoginStateView::LoadingProfiles { csrf },
            LoginEventView::Json(JsonReplyView::Document { json, rendered }),
        ) => Some(on_profiles(csrf, profile_id_in(json), rendered)),
        (
            LoginStateView::LoadingProfiles { .. },
            LoginEventView::Json(JsonReplyView::Unreachable { cause }),
        ) => Some(failed(AuthErrorView::Transport { cause })),
        (
            LoginStateView::LoadingProfiles { .. },
            LoginEventView::Json(JsonReplyView::Unreadable { cause }),
        ) => Some(failed(AuthErrorView::Transport { cause })),
        (LoginStateView::LoadingStudentData { csrf, profile_id }, LoginEventView::Json(reply)) => Some(
            on_student_data(csrf, profile_id, api_outcome(reply)),
        ),
        _ => None,
    }
}

/// Ends a sign-in with `error`.
pub fn fail(error: AuthError) -> (end: (LoginState, LoginAction))
    ensures
        (end.0@, end.1@) == failed(error@),
{
    (LoginState::Finished, LoginAction::Fail(error))
}

/// Starts a sign-in with the user's credentials.
pub fn login(username: String, password: String) -> (start: (LoginState, LoginAction))
    ensures
        (start.0@, start.1@) == login_start(username@, password@),
{
    (LoginState::Opening { username, password }, LoginAction::OpenClient)
}

/// Goes on from the sign-in page, given the tokens that were looked for in it.
pub fn after_login_page(
    username: &str,
    password: &str,
    final_url: &str,
    tokens: Result<(String, Option<String>), MissingToken>,
) -> (next: (LoginState, LoginAction))
    ensures
        (next.0@, next.1@) == on_login_page(username@, password@, final_url@, tokens_view(tokens)),
{
    match tokens {
        Ok((execution, ticket)) => (
            LoginState::Submitting,
            LoginAction::Send(
                Request::submit(username, password, execution.as_str(), &ticket, final_url),
            ),
        ),
        Err(missing) => fail(AuthError::TokenMissing(missing)),
    }
}

/// Goes on from the submitted form, given the host at which its response
/// ended.
pub fn after_verdict(final_url: String, host: &Option<String>) -> (next: (LoginState, LoginAction))
    ensures
        (next.0@, next.1@) == on_verdict(final_url@, host.deep_view()),
{
    if at_cas_host(host) {
        fail(AuthError::InvalidCredentials { final_url })
    } else {
        (LoginState::LoadingPortalPage, LoginAction::Send(Request::portal_page()))
    }
}

/// Goes on from the portal's page, given the security token that was looked
/// for in it.
pub fn after_portal_page(token: Result<String, MissingToken>) -> (next: (LoginState, LoginAction))
    ensures
        (next.0@, next.1@) == on_portal_page(token_view(token)),
{
    match token {
        Ok(csrf) => {
            let request = Request::profiles(csrf.as_str());
            (LoginState::LoadingProfiles { csrf }, LoginAction::Send(request))
        },
        Err(missing) => fail(AuthError::TokenMissing(missing)),
    }
}

/// Goes on from the profile listing, given the profile that was looked for in
/// it.
pub fn after_profiles(csrf: String, found: Option<String>, rendered: String) -> (next: (
    LoginState,
    LoginAction,
))
    ensures
        (next.0@, next.1@) == on_profiles(csrf@, found.deep_view(), rendered@),
{
    match found {
        Some(profile_id) => {
            let request = api_get(STUDENT_DATA_PATH, csrf.as_str(), profile_id.as_str());
            (LoginState::LoadingStudentData { csrf, profile_id }, LoginAction::Send(request))
        },
        None => fail(AuthError::NoProfile { response: rendered }),
    }
}

/// Ends the sign-in on the answer to the request for the student's data.
pub fn after_student_data(csrf: String, profile_id: String, outcome: Result<Json, ApiError>) -> (next:
    (LoginState, LoginAction))
    ensures
        (next.0@, next.1@) == on_student_data(
            csrf@,
            profile_id@,
            crate::api::api_result_view(outcome),
        ),
{
    match outcome {
        Ok(payload) => (LoginState::Finished, LoginAction::Succeed { csrf, profile_id, payload }),
        Err(error) => fail(AuthError::Api(error)),
    }
}

/// Takes the sign-in one step on: from `state`, on what came of the last thing
/// asked, to the next state and the next thing to ask. An `event` that `state`
/// does not wait for is refused and changes nothing.
pub fn login_step(state: LoginState, event: LoginEvent) -> (step: Result<
    (LoginState, LoginAction),
    OutOfTurn,
>)
    ensures
        match step {
            Ok((next, action)) => login_transition(state@, event@) == Some((next@, action@)),
            Err(_) => login_transition(state@, event@) is None,
        },
{
    match (state, event) {
        (LoginState::Opening { username, password }, LoginEvent::ClientReady) => Ok(
            (
                LoginState::ContactingPortal { username, password },
                LoginAction::Send(Request::portal_root()),
            ),
        ),
        (LoginState::Opening { .. }, LoginEvent::ClientFailed { cause }) => Ok(
            fail(AuthError::ClientUnavailable { cause }),
        ),
        (
            LoginState::ContactingPortal { username, password },
            LoginEvent::Arrival(Arrival::Arrived { .. }),
        ) => Ok(
            (
                LoginState::LoadingLoginPage { username, password },
                LoginAction::Send(Request::login_page()),
            ),
        ),
        (LoginState::ContactingPortal { .. }, LoginEvent::Arrival(Arrival::Unreachable { cause })) => Ok(
            fail(AuthError::PortalUnreachable { cause }),
        ),
        (
            LoginState::LoadingLoginPage { username, password },
            LoginEvent::Page(PageReply::Page { final_url, html }),
        ) => {
            let tokens = extract_cas_tokens(html.as_str());
            Ok(after_login_page(username.as_str(), password.as_str(), final_url.as_str(), tokens))
        },
        (LoginState::LoadingLoginPage { .. }, LoginEvent::Page(PageReply::Unreachable { cause })) => Ok(
            fail(AuthError::CasUnreachable { request: CasRequest::LoginPage, cause }),
        ),
        (LoginState::LoadingLoginPage { .. }, LoginEvent::Page(PageReply::Unreadable { cause })) => Ok(
            fail(AuthError::Transport { cause }),
        ),
        (LoginState::Submitting, LoginEvent::Arrival(Arrival::Arrived { final_url })) => {
            let host = host_of(final_url.as_str());
            Ok(after_verdict(final_url, &host))
        },
        (LoginState::Submitting, LoginEvent::Arrival(Arrival::Unreachable { cause })) => Ok(
            fail(AuthError::CasUnreachable { request: CasRequest::Submit, cause }),
        ),
        (LoginState::LoadingPortalPage, LoginEvent::Page(PageReply::Page { final_url, html })) => {
            let token = extract_csrf(html.as_str());
            Ok(after_portal_page(token))
        },
        (LoginState::LoadingPortalPage, LoginEvent::Page(PageReply::Unreachable { cause })) => Ok(
            fail(AuthError::Transport { cause }),
        ),
        (LoginState::LoadingPortalPage, LoginEvent::Page(PageReply::Unreadable { cause })) => Ok(
            fail(AuthError::Transport { cause }),
        ),
        (
            LoginState::LoadingProfiles { csrf },
            LoginEvent::Json(JsonReply::Document { json, rendered }),
        ) => {
            let found = find_profile_id(&json);
            Ok(after_profiles(csrf, found, rendered))
        },
        (LoginState::LoadingProfiles { .. }, LoginEvent::Json(JsonReply::Unreachable { cause })) => Ok(
            fail(AuthError::Transport { cause }),
        ),
        (LoginState::LoadingProfiles { .. }, LoginEvent::Json(JsonReply::Unreadable { cause })) => Ok(
            fail(AuthError::Transport { cause }),
        ),
        (LoginState::LoadingStudentData { csrf, profile_id }, LoginEvent::Json(reply)) => Ok(
            after_student_data(csrf, profile_id, api_result(reply)),
        ),
        _ => Err(OutOfTurn),
    }
}

/// The host at which the response to the submitted form ended decides, and
/// nothing else does: at the authentication service's host the sign-in ends
/// with the credentials refused, and the failure names where the response
/// ended; at any other host, or none, the sign-in goes on to the portal's page.
pub proof fn lemma_host_decides(final_url: Seq<char>)
    ensures
        url_host(final_url) == Some(CAS_HOST@) ==> login_transition(
            LoginStateView::Submitting,
            LoginEventView::Arrival(ArrivalView::Arrived { final_url }),
        ) == Some(failed(AuthErrorView::InvalidCredentials { final_url })),
        url_host(final_url) != Some(CAS_HOST@) ==> login_transition(
            LoginStateView::Submitting,
            LoginEventView::Arrival(ArrivalView::Arrived { final_url }),
        ) == Some(
            (LoginStateView::LoadingPortalPage, LoginActionView::Send(portal_page_request())),
        ),
{
}

} // verus!
