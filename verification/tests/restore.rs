use portal_auth::errors::RestoreError;
use portal_auth::http::{JsonReply, Request};
use portal_auth::json::Json;
use portal_auth::login::OutOfTurn;
use portal_auth::restore::{
    after_load, after_validation, restore_step, try_restore_session, RestoreAction, RestoreEvent,
    RestoreState,
};
use portal_auth::store::{LoadOutcome, SavedSession};

fn words(value: &str) -> String {
    value.to_string()
}

fn header(name: &str, value: &str) -> (String, String) {
    (name.to_string(), value.to_string())
}

fn record(cookies: &str) -> SavedSession {
    SavedSession::new(words(cookies), "tok", "42")
}

fn validating() -> RestoreState {
    RestoreState::Validating { csrf: words("tok"), profile_id: words("42") }
}

fn rejected(error: RestoreError) -> (RestoreState, RestoreAction) {
    (RestoreState::Finished, RestoreAction::Fail { error, discard_record: true })
}

fn kept(error: RestoreError) -> (RestoreState, RestoreAction) {
    (RestoreState::Finished, RestoreAction::Fail { error, discard_record: false })
}

#[test]
fn restore_starts_by_reading_the_record() {
    assert_eq!(try_restore_session(), (RestoreState::Reading, RestoreAction::ReadRecord));
}

#[test]
fn missing_record_is_reported_and_nothing_deleted() {
    let (state, _) = try_restore_session();
    let step = restore_step(state, RestoreEvent::Loaded(LoadOutcome::Unreadable));
    assert_eq!(step, Ok(kept(RestoreError::NoSavedSession)));
    assert_eq!(RestoreError::NoSavedSession.message(), "No saved session");
}

#[test]
fn unknown_storage_place_is_reported_as_it_came() {
    let outcome = LoadOutcome::NoPath { cause: words("no data dir") };
    let (_, action) = after_load(outcome);
    match action {
        RestoreAction::Fail { error, discard_record } => {
            assert!(!discard_record);
            assert_eq!(error, RestoreError::StorageUnavailable { cause: words("no data dir") });
            assert_eq!(error.message(), "no data dir");
        }
        other => panic!("unexpected {:?}", other),
    }
}

#[test]
fn corrupt_record_is_discarded() {
    assert_eq!(after_load(LoadOutcome::Malformed), rejected(RestoreError::CorruptSession));
    assert_eq!(RestoreError::CorruptSession.message(), "Corrupt session file");
}

#[test]
fn record_without_cookies_is_discarded() {
    assert_eq!(after_load(LoadOutcome::Record(record(""))), rejected(RestoreError::EmptySession));
    assert_eq!(RestoreError::EmptySession.message(), "Empty session");
    assert!(record("").is_empty());
    assert!(!record("a=1").is_empty());
}

#[test]
fn record_with_cookies_is_tried_against_the_portal() {
    let (state, action) = after_load(LoadOutcome::Record(record("a=1; b=2")));
    assert_eq!(state, validating());
    match action {
        RestoreAction::Validate { cookies, request } => {
            assert_eq!(
                cookies,
                vec![
                    words("a=1; Domain=sis-portal.uom.gr; Path=/"),
                    words("b=2; Domain=sis-portal.uom.gr; Path=/"),
                ]
            );
            assert_eq!(request.url, "https://sis-portal.uom.gr/feign/student/student_data");
            assert_eq!(
                request.headers,
                vec![
                    header("X-CSRF-TOKEN", "tok"),
                    header("X-Profile", "42"),
                    header("X-Requested-With", "XMLHttpRequest"),
                    header("Accept", "application/json"),
                ]
            );
        }
        other => panic!("unexpected {:?}", other),
    }
}

#[test]
fn accepted_session_is_taken_up() {
    let reply = JsonReply::Document { json: Json::Bool(true), rendered: words("true") };
    let step = restore_step(validating(), RestoreEvent::Validated(reply));
    assert_eq!(
        step,
        Ok((
            RestoreState::Finished,
            RestoreAction::Succeed { csrf: words("tok"), profile_id: words("42"), payload: Json::Bool(true) }
        ))
    );
}

#[test]
fn failed_validation_reports_expiry_and_discards_record() {
    let unreachable = JsonReply::Unreachable { cause: words("timeout") };
    assert_eq!(
        restore_step(validating(), RestoreEvent::Validated(unreachable)),
        Ok(rejected(RestoreError::SessionExpired))
    );
    let unreadable = JsonReply::Unreadable { cause: words("<html>login</html>") };
    assert_eq!(
        after_validation(words("tok"), words("42"), unreadable),
        rejected(RestoreError::SessionExpired)
    );
    assert_eq!(RestoreError::SessionExpired.message(), "Session expired");
}

#[test]
fn failed_restore_runs_from_record_to_discard() {
    let (state, action) = try_restore_session();
    assert_eq!(action, RestoreAction::ReadRecord);
    let (state, action) =
        restore_step(state, RestoreEvent::Loaded(LoadOutcome::Record(record("JSESSIONID=old")))).unwrap();
    assert!(matches!(action, RestoreAction::Validate { .. }));
    let reply = JsonReply::Unreachable { cause: words("connection reset") };
    let (state, action) = restore_step(state, RestoreEvent::Validated(reply)).unwrap();
    assert_eq!(state, RestoreState::Finished);
    assert_eq!(
        action,
        RestoreAction::Fail { error: RestoreError::SessionExpired, discard_record: true }
    );
}

#[test]
fn client_failure_keeps_the_record() {
    let step = restore_step(validating(), RestoreEvent::ClientFailed { cause: words("tls") });
    assert_eq!(step, Ok(kept(RestoreError::ClientUnavailable { cause: words("tls") })));
    assert_eq!(
        RestoreError::ClientUnavailable { cause: words("tls") }.message(),
        "HTTP client error: tls"
    );
}

#[test]
fn restore_answer_out_of_turn_is_refused() {
    let (state, _) = try_restore_session();
    assert_eq!(
        restore_step(state, RestoreEvent::ClientFailed { cause: words("x") }),
        Err(OutOfTurn)
    );
    assert_eq!(
        restore_step(validating(), RestoreEvent::Loaded(LoadOutcome::Unreadable)),
        Err(OutOfTurn)
    );
    assert_eq!(
        restore_step(RestoreState::Finished, RestoreEvent::Loaded(LoadOutcome::Malformed)),
        Err(OutOfTurn)
    );
    let reply = JsonReply::Document { json: Json::Null, rendered: words("null") };
    assert_eq!(restore_step(RestoreState::Reading, RestoreEvent::Validated(reply)), Err(OutOfTurn));
    let _ = Request::portal_root();
}
