use portal_auth::errors::{ApiError, AuthError, CasRequest};
use portal_auth::http::{Arrival, JsonReply, Method, PageReply, Reading, Request};
use portal_auth::json::Json;
use portal_auth::login::{
    after_login_page, after_portal_page, after_profiles, after_student_data, after_verdict, fail,
    login, login_step, LoginAction, LoginEvent, LoginState, OutOfTurn,
};
use portal_auth::tokens::MissingToken;

fn text(value: &str) -> String {
    value.to_string()
}

fn named(name: &str, value: &str) -> (String, String) {
    (name.to_string(), value.to_string())
}

fn sign_in_page() -> String {
    text(r#"<html><body><form><input type="hidden" name="lt" value="LT-1"><input type="hidden" name="execution" value="e1s1"></form></body></html>"#)
}

fn portal_page() -> String {
    text(r#"<html><head><meta name="_csrf" content="tok"></head><body></body></html>"#)
}

fn profile_listing() -> Json {
    Json::Object(vec![(
        text("data"),
        Json::Object(vec![(text("id"), Json::Number(text("42")))]),
    )])
}

fn student() -> Json {
    Json::Object(vec![(text("name"), Json::Text(text("Ada")))])
}

fn send(action: LoginAction) -> Request {
    match action {
        LoginAction::Send(request) => request,
        other => panic!("expected a request, got {:?}", other),
    }
}

fn failure(step: Result<(LoginState, LoginAction), OutOfTurn>) -> AuthError {
    match step {
        Ok((LoginState::Finished, LoginAction::Fail(error))) => error,
        other => panic!("expected a failure, got {:?}", other),
    }
}

fn submitting() -> LoginState {
    LoginState::Submitting
}

#[test]
fn sign_in_starts_by_asking_for_a_client() {
    let (state, action) = login(text("u"), text("p"));
    assert_eq!(state, LoginState::Opening { username: text("u"), password: text("p") });
    assert_eq!(action, LoginAction::OpenClient);
}

#[test]
fn sign_in_runs_through_all_steps() {
    let (state, action) = login(text("user"), text("secret"));
    assert_eq!(action, LoginAction::OpenClient);

    let (state, action) = login_step(state, LoginEvent::ClientReady).unwrap();
    let request = send(action);
    assert_eq!(request.method, Method::Get);
    assert_eq!(request.url, "https://sis-portal.uom.gr");
    assert_eq!(request.reads, Reading::Nothing);
    assert!(request.query.is_empty() && request.form.is_empty() && request.headers.is_empty());

    let arrived = LoginEvent::Arrival(Arrival::Arrived { final_url: text("https://sis-portal.uom.gr/") });
    let (state, action) = login_step(state, arrived).unwrap();
    let request = send(action);
    assert_eq!(request.method, Method::Get);
    assert_eq!(request.url, "https://sso.uom.gr/login");
    assert_eq!(request.query, vec![named("service", "https://sis-portal.uom.gr/login/cas")]);
    assert_eq!(request.reads, Reading::Text);

    let page = LoginEvent::Page(PageReply::Page {
        final_url: text("https://sso.uom.gr/login?service=x"),
        html: sign_in_page(),
    });
    let (state, action) = login_step(state, page).unwrap();
    assert_eq!(state, LoginState::Submitting);
    let request = send(action);
    assert_eq!(request.method, Method::Post);
    assert_eq!(request.url, "https://sso.uom.gr/login");
    assert_eq!(request.query, vec![named("service", "https://sis-portal.uom.gr/login/cas")]);
    assert_eq!(
        request.form,
        vec![
            named("username", "user"),
            named("password", "secret"),
            named("execution", "e1s1"),
            named("_eventId", "submit"),
            named("lt", "LT-1"),
        ]
    );
    assert_eq!(request.headers, vec![named("Referer", "https://sso.uom.gr/login?service=x")]);

    let landed = LoginEvent::Arrival(Arrival::Arrived { final_url: text("https://sis-portal.uom.gr/") });
    let (state, action) = login_step(state, landed).unwrap();
    assert_eq!(state, LoginState::LoadingPortalPage);
    let request = send(action);
    assert_eq!(request.url, "https://sis-portal.uom.gr");
    assert_eq!(request.reads, Reading::Text);

    let page = LoginEvent::Page(PageReply::Page {
        final_url: text("https://sis-portal.uom.gr/"),
        html: portal_page(),
    });
    let (state, action) = login_step(state, page).unwrap();
    assert_eq!(state, LoginState::LoadingProfiles { csrf: text("tok") });
    let request = send(action);
    assert_eq!(request.url, "https://sis-portal.uom.gr/api/person/profiles");
    assert_eq!(
        request.headers,
        vec![named("X-CSRF-TOKEN", "tok"), named("X-Requested-With", "XMLHttpRequest")]
    );
    assert_eq!(request.reads, Reading::Json);

    let listing = LoginEvent::Json(JsonReply::Document {
        json: profile_listing(),
        rendered: text(r#"{"data":{"id":42}}"#),
    });
    let (state, action) = login_step(state, listing).unwrap();
    assert_eq!(state, LoginState::LoadingStudentData { csrf: text("tok"), profile_id: text("42") });
    let request = send(action);
    assert_eq!(request.url, "https://sis-portal.uom.gr/feign/student/student_data");
    assert_eq!(
        request.headers,
        vec![
            named("X-CSRF-TOKEN", "tok"),
            named("X-Profile", "42"),
            named("X-Requested-With", "XMLHttpRequest"),
            named("Accept", "application/json"),
        ]
    );

    let data = LoginEvent::Json(JsonReply::Document { json: student(), rendered: text("{}") });
    let (state, action) = login_step(state, data).unwrap();
    assert_eq!(state, LoginState::Finished);
    assert_eq!(
        action,
        LoginAction::Succeed { csrf: text("tok"), profile_id: text("42"), payload: student() }
    );
}

#[test]
fn client_failure_ends_sign_in() {
    let (state, _) = login(text("u"), text("p"));
    let error = failure(login_step(state, LoginEvent::ClientFailed { cause: text("no tls") }));
    assert_eq!(error, AuthError::ClientUnavailable { cause: text("no tls") });
    assert_eq!(error.message(), "HTTP client error: no tls");
}

#[test]
fn unreachable_portal_ends_sign_in() {
    let state = LoginState::ContactingPortal { username: text("u"), password: text("p") };
    let event = LoginEvent::Arrival(Arrival::Unreachable { cause: text("dns") });
    let error = failure(login_step(state, event));
    assert_eq!(error, AuthError::PortalUnreachable { cause: text("dns") });
    assert_eq!(error.message(), "Portal unreachable: dns");
}

#[test]
fn unreachable_cas_ends_sign_in() {
    let state = LoginState::LoadingLoginPage { username: text("u"), password: text("p") };
    let event = LoginEvent::Page(PageReply::Unreachable { cause: text("refused") });
    let error = failure(login_step(state, event));
    assert_eq!(error, AuthError::CasUnreachable { request: CasRequest::LoginPage, cause: text("refused") });
    assert_eq!(error.message(), "CAS page error: refused");

    let event = LoginEvent::Arrival(Arrival::Unreachable { cause: text("reset") });
    let error = failure(login_step(submitting(), event));
    assert_eq!(error, AuthError::CasUnreachable { request: CasRequest::Submit, cause: text("reset") });
    assert_eq!(error.message(), "Login request failed: reset");
}

#[test]
fn unreadable_body_is_handed_on_as_it_came() {
    let state = LoginState::LoadingLoginPage { username: text("u"), password: text("p") };
    let event = LoginEvent::Page(PageReply::Unreadable { cause: text("bad encoding") });
    let error = failure(login_step(state, event));
    assert_eq!(error, AuthError::Transport { cause: text("bad encoding") });
    assert_eq!(error.message(), "bad encoding");

    let event = LoginEvent::Page(PageReply::Unreachable { cause: text("timeout") });
    assert_eq!(
        failure(login_step(LoginState::LoadingPortalPage, event)),
        AuthError::Transport { cause: text("timeout") }
    );
    let event = LoginEvent::Page(PageReply::Unreadable { cause: text("cut") });
    assert_eq!(
        failure(login_step(LoginState::LoadingPortalPage, event)),
        AuthError::Transport { cause: text("cut") }
    );
    let event = LoginEvent::Json(JsonReply::Unreachable { cause: text("down") });
    assert_eq!(
        failure(login_step(LoginState::LoadingProfiles { csrf: text("t") }, event)),
        AuthError::Transport { cause: text("down") }
    );
    let event = LoginEvent::Json(JsonReply::Unreadable { cause: text("not json") });
    assert_eq!(
        failure(login_step(LoginState::LoadingProfiles { csrf: text("t") }, event)),
        AuthError::Transport { cause: text("not json") }
    );
}

#[test]
fn sign_in_page_without_execution_ends_sign_in() {
    let state = LoginState::LoadingLoginPage { username: text("u"), password: text("p") };
    let event = LoginEvent::Page(PageReply::Page {
        final_url: text("https://sso.uom.gr/login"),
        html: text("<html><body>maintenance</body></html>"),
    });
    let error = failure(login_step(state, event));
    assert_eq!(error, AuthError::TokenMissing(MissingToken::Execution));
    assert_eq!(error.message(), "CAS execution token not found");
}

#[test]
fn form_without_ticket_leaves_the_field_out() {
    let state = LoginState::LoadingLoginPage { username: text("u"), password: text("p") };
    let event = LoginEvent::Page(PageReply::Page {
        final_url: text("https://sso.uom.gr/login"),
        html: text(r#"<input name="execution" value="E">"#),
    });
    let (_, action) = login_step(state, event).unwrap();
    assert_eq!(
        send(action).form,
        vec![
            named("username", "u"),
            named("password", "p"),
            named("execution", "E"),
            named("_eventId", "submit"),
        ]
    );
}

#[test]
fn response_at_cas_host_means_credentials_refused() {
    let url = "https://sso.uom.gr/login?service=https%3A%2F%2Fsis-portal.uom.gr%2Flogin%2Fcas";
    let event = LoginEvent::Arrival(Arrival::Arrived { final_url: text(url) });
    let error = failure(login_step(submitting(), event));
    assert_eq!(error, AuthError::InvalidCredentials { final_url: text(url) });
    assert_eq!(
        error.message(),
        format!("Invalid username or password (ended at {})", url)
    );
}

#[test]
fn cas_host_is_read_as_the_url_crate_reads_it() {
    for url in ["https://SSO.UOM.GR/login", "https://user@sso.uom.gr:8443/x", "http://sso.uom.gr"] {
        let event = LoginEvent::Arrival(Arrival::Arrived { final_url: text(url) });
        assert_eq!(
            failure(login_step(submitting(), event)),
            AuthError::InvalidCredentials { final_url: text(url) }
        );
    }
}

#[test]
fn response_at_any_other_host_goes_on() {
    for url in [
        "https://sis-portal.uom.gr/",
        "https://sso.uom.gr.example.org/login",
        "https://example.org/?next=sso.uom.gr",
        "sso.uom.gr",
        "not a url",
        "data:text/plain,sso.uom.gr",
        "",
    ] {
        let event = LoginEvent::Arrival(Arrival::Arrived { final_url: text(url) });
        let (state, action) = login_step(submitting(), event).unwrap();
        assert_eq!(state, LoginState::LoadingPortalPage);
        assert_eq!(action, LoginAction::Send(Request::portal_page()));
    }
}

#[test]
fn verdict_goes_by_the_host_alone() {
    let (_, action) = after_verdict(text("https://x/"), &Some(text("sso.uom.gr")));
    assert_eq!(action, LoginAction::Fail(AuthError::InvalidCredentials { final_url: text("https://x/") }));
    let (state, _) = after_verdict(text("https://sso.uom.gr/"), &Some(text("Sso.uom.gr")));
    assert_eq!(state, LoginState::LoadingPortalPage);
    let (state, _) = after_verdict(text("https://sso.uom.gr/"), &None);
    assert_eq!(state, LoginState::LoadingPortalPage);
}

#[test]
fn portal_page_without_token_ends_sign_in() {
    let event = LoginEvent::Page(PageReply::Page {
        final_url: text("https://sis-portal.uom.gr/"),
        html: text("<html><head></head></html>"),
    });
    let error = failure(login_step(LoginState::LoadingPortalPage, event));
    assert_eq!(error, AuthError::TokenMissing(MissingToken::SecurityToken));
    assert_eq!(error.message(), "CSRF token not found");
}

#[test]
fn listing_without_profile_ends_sign_in() {
    let event = LoginEvent::Json(JsonReply::Document { json: Json::Array(vec![]), rendered: text("[]") });
    let error = failure(login_step(LoginState::LoadingProfiles { csrf: text("t") }, event));
    assert_eq!(error, AuthError::NoProfile { response: text("[]") });
    assert_eq!(error.message(), "No student profiles found in: []");
}

#[test]
fn failed_student_data_ends_sign_in() {
    let waiting = || LoginState::LoadingStudentData { csrf: text("t"), profile_id: text("1") };
    let event = LoginEvent::Json(JsonReply::Unreachable { cause: text("down") });
    let error = failure(login_step(waiting(), event));
    assert_eq!(error, AuthError::Api(ApiError::RequestFailed { cause: text("down") }));
    assert_eq!(error.message(), "Request failed: down");
    let event = LoginEvent::Json(JsonReply::Unreadable { cause: text("<html>") });
    let error = failure(login_step(waiting(), event));
    assert_eq!(error, AuthError::Api(ApiError::InvalidResponse { cause: text("<html>") }));
    assert_eq!(error.message(), "Invalid JSON: <html>");
}

#[test]
fn answer_out_of_turn_is_refused() {
    let (state, _) = login(text("u"), text("p"));
    let event = LoginEvent::Arrival(Arrival::Arrived { final_url: text("https://x/") });
    assert_eq!(login_step(state, event), Err(OutOfTurn));
    assert_eq!(login_step(LoginState::Finished, LoginEvent::ClientReady), Err(OutOfTurn));
    assert_eq!(login_step(submitting(), LoginEvent::ClientReady), Err(OutOfTurn));
    let page = LoginEvent::Page(PageReply::Page { final_url: text("u"), html: text("h") });
    assert_eq!(login_step(submitting(), page), Err(OutOfTurn));
    let unread = LoginEvent::Page(PageReply::Unreadable { cause: text("c") });
    assert_eq!(
        login_step(LoginState::ContactingPortal { username: text("u"), password: text("p") }, unread),
        Err(OutOfTurn)
    );
    let doc = LoginEvent::Json(JsonReply::Document { json: Json::Null, rendered: text("null") });
    assert_eq!(login_step(LoginState::LoadingPortalPage, doc), Err(OutOfTurn));
    let arrival = LoginEvent::Arrival(Arrival::Unreachable { cause: text("c") });
    assert_eq!(login_step(LoginState::LoadingProfiles { csrf: text("t") }, arrival), Err(OutOfTurn));
}

#[test]
fn steps_can_be_taken_from_what_was_found() {
    let (state, action) = after_login_page("u", "p", "ref", Err(MissingToken::Execution));
    assert_eq!((state, action), fail(AuthError::TokenMissing(MissingToken::Execution)));
    let (state, action) = after_login_page("u", "p", "ref", Ok((text("E"), None)));
    assert_eq!(state, LoginState::Submitting);
    assert_eq!(action, LoginAction::Send(Request::submit("u", "p", "E", &None, "ref")));
    let (state, _) = after_portal_page(Ok(text("c")));
    assert_eq!(state, LoginState::LoadingProfiles { csrf: text("c") });
    let (_, action) = after_portal_page(Err(MissingToken::SecurityToken));
    assert_eq!(action, LoginAction::Fail(AuthError::TokenMissing(MissingToken::SecurityToken)));
    let (state, _) = after_profiles(text("c"), Some(text("7")), text("r"));
    assert_eq!(state, LoginState::LoadingStudentData { csrf: text("c"), profile_id: text("7") });
    let (_, action) = after_profiles(text("c"), None, text("r"));
    assert_eq!(action, LoginAction::Fail(AuthError::NoProfile { response: text("r") }));
    let (_, action) = after_student_data(text("c"), text("7"), Ok(Json::Bool(true)));
    assert_eq!(
        action,
        LoginAction::Succeed { csrf: text("c"), profile_id: text("7"), payload: Json::Bool(true) }
    );
    let (_, action) = after_student_data(text("c"), text("7"), Err(ApiError::NotAuthenticated));
    assert_eq!(action, LoginAction::Fail(AuthError::Api(ApiError::NotAuthenticated)));
}
