//! The one session of the process: absent, or present with all that an
//! authenticated request needs.
//!
//! A session is put in place whole and taken away whole, so no reader ever
//! sees a token without its client. A sign-in that is under way lives in a
//! value of its own and touches the slot only when it has succeeded; one that
//! fails leaves the slot as it was.
use crate::errors::ApiError;
use vstd::prelude::*;

verus! {

/// An authenticated session. `C` is the HTTP client, with its cookie jar.
pub struct SessionData<C> {
    pub client: C,
    /// The security token, sent with every authenticated request. It is got
    /// once per sign-in and never renewed.
    pub csrf: String,
    /// The profile that the requests are for.
    pub profile_id: String,
}

/// What a [`SessionData`] holds.
pub struct SessionView<C> {
    pub client: C,
    pub csrf: Seq<char>,
    pub profile_id: Seq<char>,
}

impl<C> View for SessionData<C> {
    type V = SessionView<C>;

    open spec fn view(&self) -> SessionView<C> {
        SessionView { client: self.client, csrf: self.csrf@, profile_id: self.profile_id@ }
    }
}

/// The place of the one session. Whoever shares it between tasks keeps it
/// behind a lock, and holds the lock only to read or replace the session, never
/// while a request is under way.
pub struct SessionSlot<C> {
    current: Option<SessionData<C>>,
}

impl<C> View for SessionSlot<C> {
    type V = Option<SessionView<C>>;

    closed spec fn view(&self) -> Option<SessionView<C>> {
        match self.current {
            Some(session) => Some(session@),
            None => None,
        }
    }
}

impl<C> SessionSlot<C> {
    /// A slot without a session.
    pub fn new() -> (slot: Self)
        ensures
            slot@ is None,
    {
        SessionSlot { current: None }
    }

    /// Whether a session is in place.
    pub fn is_authenticated(&self) -> (present: bool)
        ensures
            present == (self@ is Some),
    {
        self.current.is_some()
    }

    /// Puts `data` in place as the session, whole, instead of whatever was
    /// there.
    pub fn store_session(&mut self, data: SessionData<C>)
        ensures
            final(self)@ == Some(data@),
    {
        self.current = Some(data);
    }

    /// The session that is in place. Without one the caller is not signed in.
    pub fn extract_session(&self) -> (found: Result<&SessionData<C>, ApiError>)
        ensures
            match found {
                Ok(session) => self@ == Some(session@),
                Err(error) => self@ is None && error == ApiError::NotAuthenticated,
            },
    {
        match &self.current {
            Some(session) => Ok(session),
            None => Err(ApiError::NotAuthenticated),
        }
    }

    /// Takes the session away, whether or not there is one. The caller also
    /// deletes the saved record, and goes on if that fails.
    pub fn logout(&mut self)
        ensures
            final(self)@ is None,
    {
        self.current = None;
    }
}

} // verus!
