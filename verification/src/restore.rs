//! Taking up the saved session, as a machine: read the record, build a client
//! around its cookies, and ask the portal whether it still takes them.
//!
//! Only here does a failed request count as a sign that the session is no
//! longer good. A record that is shown to be of no use is discarded; one that
//! could not be tried is kept.
use crate::api::STUDENT_DATA_PATH;
use crate::cookies::{cookie_directives, directives_for};
use crate::errors::{RestoreError, RestoreErrorView};
use crate::http::{api_get, api_request, JsonReply, JsonReplyView, Request, RequestView};
use crate::json::{Json, JsonView};
use crate::login::OutOfTurn;
use crate::store::{LoadOutcome, LoadOutcomeView, SavedSession, SavedSessionView};
use vstd::prelude::*;

verus! {

/// How far the taking up of the saved session has come.
#[derive(Debug, PartialEq, Eq)]
pub enum RestoreState {
    /// Waiting for the saved record.
    Reading,
    /// Waiting for the portal's answer to the record's session.
    Validating { csrf: String, profile_id: String },
    /// Ended, well or not.
    Finished,
}

/// What a [`RestoreState`] holds.
pub enum RestoreStateView {
    Reading,
    Validating { csrf: Seq<char>, profile_id: Seq<char> },
    Finished,
}

impl View for RestoreState {
    type V = RestoreStateView;

    open spec fn view(&self) -> RestoreStateView {
        match *self {
            RestoreState::Reading => RestoreStateView::Reading,
            RestoreState::Validating { csrf, profile_id } => RestoreStateView::Validating {
                csrf: csrf@,
                profile_id: profile_id@,
            },
            RestoreState::Finished => RestoreStateView::Finished,
        }
    }
}

/// What came of the last thing asked for.
#[derive(Debug, PartialEq, Eq)]
pub enum RestoreEvent {
    /// The saved record was read, or could not be.
    Loaded(LoadOutcome),
    /// No client could be built around the record's cookies.
    ClientFailed { cause: String },
    /// The portal's answer to the record's session.
    Validated(JsonReply),
}

/// What a [`RestoreEvent`] holds.
pub enum RestoreEventView {
    Loaded(LoadOutcomeView),
    ClientFailed { cause: Seq<char> },
    Validated(JsonReplyView),
}

impl View for RestoreEvent {
    type V = RestoreEventView;

    open spec fn view(&self) -> RestoreEventView {
        match *self {
            RestoreEvent::Loaded(outcome) => RestoreEventView::Loaded(outcome@),
            RestoreEvent::ClientFailed { cause } => RestoreEventView::ClientFailed { cause: cause@ },
            RestoreEvent::Validated(reply) => RestoreEventView::Validated(reply@),
        }
    }
}

/// What is asked for next.
#[derive(Debug, PartialEq, Eq)]
pub enum RestoreAction {
    /// Read the saved record.
    ReadRecord,
    /// Build a client whose fresh jar holds `cookies`, each put in for the
    /// portal's origin, and send `request` through it.
    Validate { cookies: Vec<String>, request: Request },
    /// The session works. Put it in place with the client that was built; the
    /// record stays as it is. Hand `payload` to the user.
    Succeed { csrf: String, profile_id: String, payload: Json },
    /// No session was taken up. Where `discard_record` is set, delete the saved
    /// record, going on if that fails.
    Fail { error: RestoreError, discard_record: bool },
}

/// What a [`RestoreAction`] holds.
pub enum RestoreActionView {
    ReadRecord,
    Validate { cookies: Seq<Seq<char>>, request: RequestView },
    Succeed { csrf: Seq<char>, profile_id: Seq<char>, payload: JsonView },
    Fail { error: RestoreErrorView, discard_record: bool },
}

impl View for RestoreAction {
    type V = RestoreActionView;

    open spec fn view(&self) -> RestoreActionView {
        match *self {
            RestoreAction::ReadRecord => RestoreActionView::ReadRecord,
            RestoreAction::Validate { cookies, request } => RestoreActionView::Validate {
                cookies: cookies.deep_view(),
                request: request@,
            },
            RestoreAction::Succeed { csrf, profile_id, payload } => RestoreActionView::Succeed {
                csrf: csrf@,
                profile_id: profile_id@,
                payload: payload@,
            },
            RestoreAction::Fail { error, discard_record } => RestoreActionView::Fail {
                error: error@,
                discard_record,
            },
        }
    }
}

/// The end of an attempt that failed with `error` and leaves the record be.
pub open spec fn gave_up(error: RestoreErrorView) -> (RestoreStateView, RestoreActionView) {
    (RestoreStateView::Finished, RestoreActionView::Fail { error, discard_record: false })
}

/// The end of an attempt that showed the record to be of no use.
pub open spec fn discarded(error: RestoreErrorView) -> (RestoreStateView, RestoreActionView) {
    (RestoreStateView::Finished, RestoreActionView::Fail { error, discard_record: true })
}

/// What follows the reading of the record. Where there is none to read, none
/// is taken up and nothing is deleted. A file that holds no record, or a record
/// without cookies, is discarded. Any other record is tried against the portal.
pub open spec fn on_loaded(outcome: LoadOutcomeView) -> (RestoreStateView, RestoreActionView) {
    match outcome {
        LoadOutcomeView::NoPath { cause } => gave_up(
            RestoreErrorView::StorageUnavailable { cause },
        ),
        LoadOutcomeView::Unreadable => gave_up(RestoreErrorView::NoSavedSession),
        LoadOutcomeView::Malformed => discarded(RestoreErrorView::CorruptSession),
        LoadOutcomeView::Record(record) => if record.portal_cookies.len() == 0 {
            discarded(RestoreErrorView::EmptySession)
        } else {
            (
                RestoreStateView::Validating { csrf: record.csrf, profile_id: record.profile_id },
                RestoreActionView::Validate {
                    cookies: directives_for(record.portal_cookies),
                    request: api_request(STUDENT_DATA_PATH@, record.csrf, record.profile_id),
                },
            )
        },
    }
}

/// What follows the portal's answer to the record's session: with a document
/// the session is taken up; with anything else the session is held to have run
/// out, and the record is discarded.
pub open spec fn on_validated(csrf: Seq<char>, profile_id: Seq<char>, reply: JsonReplyView) -> (
    RestoreStateView,
    RestoreActionView,
) {
    match reply {
        JsonReplyView::Document { json, rendered } => (
            RestoreStateView::Finished,
            RestoreActionView::Succeed { csrf, profile_id, payload: json },
        ),
        _ => discarded(RestoreErrorView::SessionExpired),
    }
}

/// The step of taking up the saved session: where `state` goes on `event` and
/// what is asked for next, or nothing where `event` is not an answer that
/// `state` waits for.
pub open spec fn restore_transition(state: RestoreStateView, event: RestoreEventView) -> Option<
    (RestoreStateView, RestoreActionView),
> {
    match (state, event) {
        (RestoreStateView::Reading, RestoreEventView::Loaded(outcome)) => Some(on_loaded(outcome)),
        (RestoreStateView::Validating { .. }, RestoreEventView::ClientFailed { cause }) => Some(
            gave_up(RestoreErrorView::ClientUnavailable { cause }),
        ),
        (
            RestoreStateView::Validating { csrf, profile_id },
            RestoreEventView::Validated(reply),
        ) => Some(on_validated(csrf, profile_id, reply)),
        _ => None,
    }
}

/// Starts taking up the saved session.
pub fn try_restore_session() -> (start: (RestoreState, RestoreAction))
    ensures
        start.0@ == RestoreStateView::Reading,
        start.1@ == RestoreActionView::ReadRecord,
{
    (RestoreState::Reading, RestoreAction::ReadRecord)
}

/// Goes on from the reading of the record.
pub fn after_load(outcome: LoadOutcome) -> (next: (RestoreState, RestoreAction))
    ensures
        (next.0@, next.1@) == on_loaded(outcome@),
{
    match outcome {
        LoadOutcome::NoPath { cause } => (
            RestoreState::Finished,
            RestoreAction::Fail {
                error: RestoreError::StorageUnavailable { cause },
                discard_record: false,
            },
        ),
        LoadOutcome::Unreadable => (
            RestoreState::Finished,
            RestoreAction::Fail { error: RestoreError::NoSavedSession, discard_record: false },
        ),
        LoadOutcome::Malformed => (
            RestoreState::Finished,
            RestoreAction::Fail { error: RestoreError::CorruptSession, discard_record: true },
        ),
        LoadOutcome::Record(record) => {
            if record.is_empty() {
                (
                    RestoreState::Finished,
                    RestoreAction::Fail { error: RestoreError::EmptySession, discard_record: true },
                )
            } else {
                let cookies = cookie_directives(record.portal_cookies.as_str());
                let request = api_get(
                    STUDENT_DATA_PATH,
                    record.csrf.as_str(),
                    record.profile_id.as_str(),
                );
                (
                    RestoreState::Validating { csrf: record.csrf, profile_id: record.profile_id },
                    RestoreAction::Validate { cookies, request },
                )
            }
        },
    }
}

/// Ends the attempt on the portal's answer to the record's session.
pub fn after_validation(csrf: String, profile_id: String, reply: JsonReply) -> (next: (
    RestoreState,
    RestoreAction,
))
    ensures
        (next.0@, next.1@) == on_validated(csrf@, profile_id@, reply@),
{
    match reply {
        JsonReply::Document { json, rendered } => (
            RestoreState::Finished,
            RestoreAction::Succeed { csrf, profile_id, payload: json },
        ),
        _ => (
            RestoreState::Finished,
            RestoreAction::Fail { error: RestoreError::SessionExpired, discard_record: true },
        ),
    }
}

/// Takes the attempt one step on: from `state`, on what came of the last thing
/// asked, to the next state and the next thing to ask. An `event` that `state`
/// does not wait for is refused and changes nothing.
pub fn restore_step(state: RestoreState, event: RestoreEvent) -> (step: Result<
    (RestoreState, RestoreAction),
    OutOfTurn,
>)
    ensures
        match step {
            Ok((next, action)) => restore_transition(state@, event@) == Some((next@, action@)),
            Err(_) => restore_transition(state@, event@) is None,
        },
{
    match (state, event) {
        (RestoreState::Reading, RestoreEvent::Loaded(outcome)) => Ok(after_load(outcome)),
        (RestoreState::Validating { .. }, RestoreEvent::ClientFailed { cause }) => Ok(
            (
                RestoreState::Finished,
                RestoreAction::Fail {
                    error: RestoreError::ClientUnavailable { cause },
                    discard_record: false,
                },
            ),
        ),
        (RestoreState::Validating { csrf, profile_id }, RestoreEvent::Validated(reply)) => Ok(
            after_validation(csrf, profile_id, reply),
        ),
        _ => Err(OutOfTurn),
    }
}

/// A saved record that the portal does not take is gone afterwards: whatever
/// record was read with cookies in it, and whatever went wrong with the request
/// that tries it, the attempt ends with the session reported as run out and the
/// record discarded.
pub proof fn lemma_failed_validation_discards(record: SavedSessionView, reply: JsonReplyView)
    requires
        record.portal_cookies.len() > 0,
        !(reply is Document),
    ensures
        ({
            let tried = on_loaded(LoadOutcomeView::Record(record));
            &&& tried.1 is Validate
            &&& restore_transition(tried.0, RestoreEventView::Validated(reply)) == Some(
                discarded(RestoreErrorView::SessionExpired),
            )
        }),
{
}

} // verus!
