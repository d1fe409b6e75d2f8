//! What is kept on disk: the record of the session, from which it can be taken
//! up again without signing in, and the settings of the shell.
//!
//! Reading and writing the files is the caller's part. This module says what a
//! record holds and what the outcome of reading one means.
use crate::cookies::{jar_keeps, jar_sends, serialize_cookies, tells_of};
use crate::endpoints::PORTAL_URL;
use vstd::prelude::*;

verus! {

/// The saved record of a session: what is needed to build it again.
#[derive(Debug, PartialEq, Eq)]
pub struct SavedSession {
    /// The portal's cookies as `name=value` pairs with `; ` between them.
    pub portal_cookies: String,
    /// The security token of the session.
    pub csrf: String,
    /// The profile that the session's requests are for.
    pub profile_id: String,
}

/// What a [`SavedSession`] holds.
pub struct SavedSessionView {
    pub portal_cookies: Seq<char>,
    pub csrf: Seq<char>,
    pub profile_id: Seq<char>,
}

impl View for SavedSession {
    type V = SavedSessionView;

    open spec fn view(&self) -> SavedSessionView {
        SavedSessionView {
            portal_cookies: self.portal_cookies@,
            csrf: self.csrf@,
            profile_id: self.profile_id@,
        }
    }
}

impl SavedSession {
    /// The record of a session with the cookies `portal_cookies`.
    pub fn new(portal_cookies: String, csrf: &str, profile_id: &str) -> (record: SavedSession)
        ensures
            record@ == (SavedSessionView {
                portal_cookies: portal_cookies@,
                csrf: csrf@,
                profile_id: profile_id@,
            }),
    {
        SavedSession {
            portal_cookies,
            csrf: String::from_str(csrf),
            profile_id: String::from_str(profile_id),
        }
    }

    /// The record to save after a sign-in: the flat text of the cookies that
    /// `jar` sends to the portal, the security token and the profile. Cookies
    /// that the jar keeps for other origins only are not in it. Writing it is
    /// the caller's part, and a sign-in does not fail where that fails.
    pub fn capture(jar: &reqwest::cookie::Jar, csrf: &str, profile_id: &str) -> (record:
        SavedSession)
        ensures
            tells_of(
                record@.portal_cookies,
                jar_keeps(*jar, PORTAL_URL@),
                jar_sends(*jar, PORTAL_URL@),
            ),
            record@.csrf == csrf@,
            record@.profile_id == profile_id@,
    {
        SavedSession::new(serialize_cookies(jar), csrf, profile_id)
    }

    /// Whether the record holds no cookies.
    pub fn is_empty(&self) -> (empty: bool)
        ensures
            empty == (self@.portal_cookies.len() == 0),
    {
        self.portal_cookies.as_str().is_empty()
    }
}

/// What came of reading the saved record.
#[derive(Debug, PartialEq, Eq)]
pub enum LoadOutcome {
    /// The place where the record is kept could not be found out.
    NoPath { cause: String },
    /// There is no file, or it could not be read.
    Unreadable,
    /// The file holds no session record.
    Malformed,
    /// The file holds this record.
    Record(SavedSession),
}

/// What a [`LoadOutcome`] holds.
pub enum LoadOutcomeView {
    NoPath { cause: Seq<char> },
    Unreadable,
    Malformed,
    Record(SavedSessionView),
}

impl View for LoadOutcome {
    type V = LoadOutcomeView;

    open spec fn view(&self) -> LoadOutcomeView {
        match *self {
            LoadOutcome::NoPath { cause } => LoadOutcomeView::NoPath { cause: cause@ },
            LoadOutcome::Unreadable => LoadOutcomeView::Unreadable,
            LoadOutcome::Malformed => LoadOutcomeView::Malformed,
            LoadOutcome::Record(record) => LoadOutcomeView::Record(record@),
        }
    }
}

/// Preferences of the shell, kept on disk beside the session. They have
/// nothing to do with signing in.
#[derive(Clone, Copy, Debug, PartialEq, Eq)]
pub struct AppSettings {
    /// Whether closing the main window hides it in the tray instead of ending
    /// the program.
    pub keep_in_tray: bool,
}

impl Default for AppSettings {
    fn default() -> (settings: Self)
        ensures
            !settings.keep_in_tray,
    {
        AppSettings { keep_in_tray: false }
    }
}

impl AppSettings {
    /// The settings to start with: those that were read from disk, and the
    /// defaults where none could be read.
    pub fn or_default(read: Option<AppSettings>) -> (settings: AppSettings)
        ensures
            settings == match read {
                Some(saved) => saved,
                None => (AppSettings { keep_in_tray: false }),
            },
    {
        match read {
            Some(saved) => saved,
            None => AppSettings::default(),
        }
    }

    /// Whether the window is kept in the tray on close.
    pub fn get_keep_in_tray(&self) -> (kept: bool)
        ensures
            kept == self.keep_in_tray,
    {
        self.keep_in_tray
    }

    /// Sets whether the window is kept in the tray on close. The caller saves
    /// the settings afterwards.
    pub fn set_keep_in_tray(&mut self, value: bool)
        ensures
            final(self).keep_in_tray == value,
    {
        self.keep_in_tray = value;
    }
}

} // verus!
