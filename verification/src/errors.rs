//! What can go wrong, by kind, and the line that tells the user of it.
//!
//! Every failure keeps its cause. None is retried here: a failure ends the
//! operation it arose in, and the caller decides what to do next.
use crate::text::followed_by;
use crate::tokens::MissingToken;
use vstd::prelude::*;

verus! {

/// A failure of a request to the portal's JSON endpoints.
#[derive(Debug, PartialEq, Eq)]
pub enum ApiError {
    /// No session is installed: a data endpoint was asked before any sign-in.
    NotAuthenticated,
    /// The request could not be sent, or no response came back.
    RequestFailed { cause: String },
    /// A response came, but its body is no JSON document.
    InvalidResponse { cause: String },
}

/// What an [`ApiError`] holds.
pub enum ApiErrorView {
    NotAuthenticated,
    RequestFailed { cause: Seq<char> },
    InvalidResponse { cause: Seq<char> },
}

impl View for ApiError {
    type V = ApiErrorView;

    open spec fn view(&self) -> ApiErrorView {
        match *self {
            ApiError::NotAuthenticated => ApiErrorView::NotAuthenticated,
            ApiError::RequestFailed { cause } => ApiErrorView::RequestFailed { cause: cause@ },
            ApiError::InvalidResponse { cause } => ApiErrorView::InvalidResponse { cause: cause@ },
        }
    }
}

/// The line that tells of an API failure.
pub open spec fn api_message(error: ApiErrorView) -> Seq<char> {
    match error {
        ApiErrorView::NotAuthenticated => "Not logged in"@,
        ApiErrorView::RequestFailed { cause } => "Request failed: "@ + cause,
        ApiErrorView::InvalidResponse { cause } => "Invalid JSON: "@ + cause,
    }
}

impl ApiError {
    /// The line that tells the user of this failure.
    pub fn message(&self) -> (line: String)
        ensures
            line@ == api_message(self@),
    {
        match self {
            ApiError::NotAuthenticated => String::from_str("Not logged in"),
            ApiError::RequestFailed { cause } => followed_by("Request failed: ", cause.as_str()),
            ApiError::InvalidResponse { cause } => followed_by("Invalid JSON: ", cause.as_str()),
        }
    }
}

/// Which of the two requests to the authentication service failed.
#[derive(Clone, Copy, Debug, PartialEq, Eq)]
pub enum CasRequest {
    /// Loading the sign-in page.
    LoginPage,
    /// Submitting the credentials.
    Submit,
}

/// A failure of a sign-in.
#[derive(Debug, PartialEq, Eq)]
pub enum AuthError {
    /// No HTTP client could be set up.
    ClientUnavailable { cause: String },
    /// The portal did not answer the first request.
    PortalUnreachable { cause: String },
    /// The authentication service did not answer.
    CasUnreachable { request: CasRequest, cause: String },
    /// A later request failed, or its body could not be read; the cause is
    /// handed on as it came.
    Transport { cause: String },
    /// A page came without the token it was expected to carry: the provider
    /// has changed its markup.
    TokenMissing(MissingToken),
    /// The authentication service kept the user: the credentials were refused.
    InvalidCredentials { final_url: String },
    /// The profile listing names no profile.
    NoProfile { response: String },
    /// The first authenticated request failed.
    Api(ApiError),
}

/// What an [`AuthError`] holds.
pub enum AuthErrorView {
    ClientUnavailable { cause: Seq<char> },
    PortalUnreachable { cause: Seq<char> },
    CasUnreachable { request: CasRequest, cause: Seq<char> },
    Transport { cause: Seq<char> },
    TokenMissing(MissingToken),
    InvalidCredentials { final_url: Seq<char> },
    NoProfile { response: Seq<char> },
    Api(ApiErrorView),
}

impl View for AuthError {
    type V = AuthErrorView;

    open spec fn view(&self) -> AuthErrorView {
        match *self {
            AuthError::ClientUnavailable { cause } => AuthErrorView::ClientUnavailable {
                cause: cause@,
            },
            AuthError::PortalUnreachable { cause } => AuthErrorView::PortalUnreachable {
                cause: cause@,
            },
            AuthError::CasUnreachable { request, cause } => AuthErrorView::CasUnreachable {
                request,
                cause: cause@,
            },
            AuthError::Transport { cause } => AuthErrorView::Transport { cause: cause@ },
            AuthError::TokenMissing(missing) => AuthErrorView::TokenMissing(missing),
            AuthError::InvalidCredentials { final_url } => AuthErrorView::InvalidCredentials {
                final_url: final_url@,
            },
            AuthError::NoProfile { response } => AuthErrorView::NoProfile { response: response@ },
            AuthError::Api(error) => AuthErrorView::Api(error@),
        }
    }
}

/// The line that tells of a missing token.
pub open spec fn missing_token_message(missing: MissingToken) -> Seq<char> {
    match missing {
        MissingToken::Execution => "CAS execution token not found"@,
        MissingToken::SecurityToken => "CSRF token not found"@,
    }
}

/// The line that tells of a failed sign-in.
pub open spec fn auth_message(error: AuthErrorView) -> Seq<char> {
    match error {
        AuthErrorView::ClientUnavailable { cause } => "HTTP client error: "@ + cause,
        AuthErrorView::PortalUnreachable { cause } => "Portal unreachable: "@ + cause,
        AuthErrorView::CasUnreachable { request: CasRequest::LoginPage, cause } => "CAS page error: "@
            + cause,
        AuthErrorView::CasUnreachable { request: CasRequest::Submit, cause } =>
            "Login request failed: "@ + cause,
        AuthErrorView::Transport { cause } => cause,
        AuthErrorView::TokenMissing(missing) => missing_token_message(missing),
        AuthErrorView::InvalidCredentials { final_url } =>
            "Invalid username or password (ended at "@ + final_url + ")"@,
        AuthErrorView::NoProfile { response } => "No student profiles found in: "@ + response,
        AuthErrorView::Api(error) => api_message(error),
    }
}

/// The line that tells the user that a token is missing.
pub fn describe_missing_token(missing: MissingToken) -> (line: String)
    ensures
        line@ == missing_token_message(missing),
{
    match missing {
        MissingToken::Execution => String::from_str("CAS execution token not found"),
        MissingToken::SecurityToken => String::from_str("CSRF token not found"),
    }
}

impl AuthError {
    /// The line that tells the user of this failure.
    pub fn message(&self) -> (line: String)
        ensures
            line@ == auth_message(self@),
    {
        match self {
            AuthError::ClientUnavailable { cause } => followed_by("HTTP client error: ", cause.as_str()),
            AuthError::PortalUnreachable { cause } => followed_by(
                "Portal unreachable: ",
                cause.as_str(),
            ),
            AuthError::CasUnreachable { request, cause } => match request {
                CasRequest::LoginPage => followed_by("CAS page error: ", cause.as_str()),
                CasRequest::Submit => followed_by("Login request failed: ", cause.as_str()),
            },
            AuthError::Transport { cause } => cause.clone(),
            AuthError::TokenMissing(missing) => describe_missing_token(*missing),
            AuthError::InvalidCredentials { final_url } => {
                let mut line = followed_by("Invalid username or password (ended at ", final_url.as_str());
                line.append(")");
                line
            },
            AuthError::NoProfile { response } => followed_by(
                "No student profiles found in: ",
                response.as_str(),
            ),
            AuthError::Api(error) => error.message(),
        }
    }
}

/// A failure to take up the saved session.
#[derive(Debug, PartialEq, Eq)]
pub enum RestoreError {
    /// The place of the saved session could not be found out.
    StorageUnavailable { cause: String },
    /// Nothing is saved, or what is saved cannot be read.
    NoSavedSession,
    /// What is saved is no session record.
    CorruptSession,
    /// The saved record holds no cookies.
    EmptySession,
    /// No HTTP client could be set up.
    ClientUnavailable { cause: String },
    /// The portal no longer takes the saved session.
    SessionExpired,
}

/// What a [`RestoreError`] holds.
pub enum RestoreErrorView {
    StorageUnavailable { cause: Seq<char> },
    NoSavedSession,
    CorruptSession,
    EmptySession,
    ClientUnavailable { cause: Seq<char> },
    SessionExpired,
}

impl View for RestoreError {
    type V = RestoreErrorView;

    open spec fn view(&self) -> RestoreErrorView {
        match *self {
            RestoreError::StorageUnavailable { cause } => RestoreErrorView::StorageUnavailable {
                cause: cause@,
            },
            RestoreError::NoSavedSession => RestoreErrorView::NoSavedSession,
            RestoreError::CorruptSession => RestoreErrorView::CorruptSession,
            RestoreError::EmptySession => RestoreErrorView::EmptySession,
            RestoreError::ClientUnavailable { cause } => RestoreErrorView::ClientUnavailable {
                cause: cause@,
            },
            RestoreError::SessionExpired => RestoreErrorView::SessionExpired,
        }
    }
}

/// The line that tells of a failed restore.
pub open spec fn restore_message(error: RestoreErrorView) -> Seq<char> {
    match error {
        RestoreErrorView::StorageUnavailable { cause } => cause,
        RestoreErrorView::NoSavedSession => "No saved session"@,
        RestoreErrorView::CorruptSession => "Corrupt session file"@,
        RestoreErrorView::EmptySession => "Empty session"@,
        RestoreErrorView::ClientUnavailable { cause } => "HTTP client error: "@ + cause,
        RestoreErrorView::SessionExpired => "Session expired"@,
    }
}

impl RestoreError {
    /// The line that tells the user of this failure.
    pub fn message(&self) -> (line: String)
        ensures
            line@ == restore_message(self@),
    {
        match self {
            RestoreError::StorageUnavailable { cause } => cause.clone(),
            RestoreError::NoSavedSession => String::from_str("No saved session"),
            RestoreError::CorruptSession => String::from_str("Corrupt session file"),
            RestoreError::EmptySession => String::from_str("Empty session"),
            RestoreError::ClientUnavailable { cause } => followed_by(
                "HTTP client error: ",
                cause.as_str(),
            ),
            RestoreError::SessionExpired => String::from_str("Session expired"),
        }
    }
}

} // verus!
