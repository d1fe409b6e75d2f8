use portal_auth::tokens::{
    extract_cas_tokens, extract_csrf, first_value, login_tokens_from, security_token_from,
    MissingToken,
};

#[test]
fn execution_value_is_found() {
    let page = r#"<html><body><form><input name="execution" value="X"></form></body></html>"#;
    assert_eq!(extract_cas_tokens(page), Ok(("X".to_string(), None)));
}

#[test]
fn page_without_execution_field_is_refused() {
    let page = r#"<html><body><form><input name="username"></form></body></html>"#;
    assert_eq!(extract_cas_tokens(page), Err(MissingToken::Execution));
}

#[test]
fn ticket_is_passed_on_when_present() {
    let page = r#"<form><input type="hidden" name="lt" value="Y"><input type="hidden" name="execution" value="e1s1"></form>"#;
    assert_eq!(extract_cas_tokens(page), Ok(("e1s1".to_string(), Some("Y".to_string()))));
}

#[test]
fn ticket_is_absent_when_page_has_none() {
    let page = r#"<form><input type="hidden" name="execution" value="e1s1"></form>"#;
    assert_eq!(extract_cas_tokens(page), Ok(("e1s1".to_string(), None)));
}

#[test]
fn ticket_alone_does_not_make_up_for_execution() {
    let page = r#"<form><input name="lt" value="Y"></form>"#;
    assert_eq!(extract_cas_tokens(page), Err(MissingToken::Execution));
}

#[test]
fn only_the_first_matching_element_counts() {
    let page = r#"<input name="execution"><input name="execution" value="second">"#;
    assert_eq!(extract_cas_tokens(page), Err(MissingToken::Execution));
    let both = r#"<input name="execution" value="first"><input name="execution" value="second">"#;
    assert_eq!(extract_cas_tokens(both), Ok(("first".to_string(), None)));
}

#[test]
fn empty_value_is_a_value() {
    let page = r#"<input name="execution" value="">"#;
    assert_eq!(extract_cas_tokens(page), Ok((String::new(), None)));
}

#[test]
fn broken_markup_is_read_as_far_as_it_goes() {
    assert_eq!(extract_cas_tokens(""), Err(MissingToken::Execution));
    assert_eq!(extract_cas_tokens("<<<>>> <input name=\"execution\""), Err(MissingToken::Execution));
    let unclosed = "<html><body><div><form><input name=\"execution\" value=\"abc\"><p>";
    assert_eq!(extract_cas_tokens(unclosed), Ok(("abc".to_string(), None)));
}

#[test]
fn security_token_is_found_in_meta() {
    let page = r#"<html><head><meta name="_csrf" content="tok-123"><meta name="_csrf_header" content="X-CSRF-TOKEN"></head></html>"#;
    assert_eq!(extract_csrf(page), Ok("tok-123".to_string()));
}

#[test]
fn page_without_security_token_is_refused() {
    let page = r#"<html><head><meta name="viewport" content="width=device-width"></head></html>"#;
    assert_eq!(extract_csrf(page), Err(MissingToken::SecurityToken));
    let no_content = r#"<meta name="_csrf">"#;
    assert_eq!(extract_csrf(no_content), Err(MissingToken::SecurityToken));
}

#[test]
fn tokens_are_picked_from_what_was_found() {
    let some = |values: Vec<Option<&str>>| {
        Some(values.into_iter().map(|v| v.map(String::from)).collect::<Vec<Option<String>>>())
    };
    assert_eq!(login_tokens_from(&None, &None), Err(MissingToken::Execution));
    assert_eq!(login_tokens_from(&some(vec![]), &some(vec![Some("t")])), Err(MissingToken::Execution));
    assert_eq!(
        login_tokens_from(&some(vec![None, Some("late")]), &some(vec![Some("t")])),
        Err(MissingToken::Execution)
    );
    assert_eq!(
        login_tokens_from(&some(vec![Some("e"), Some("f")]), &some(vec![None])),
        Ok(("e".to_string(), None))
    );
    assert_eq!(
        login_tokens_from(&some(vec![Some("e")]), &some(vec![Some("t"), None])),
        Ok(("e".to_string(), Some("t".to_string())))
    );
    assert_eq!(login_tokens_from(&some(vec![Some("e")]), &None), Ok(("e".to_string(), None)));
    assert_eq!(security_token_from(&None), Err(MissingToken::SecurityToken));
    assert_eq!(security_token_from(&some(vec![])), Err(MissingToken::SecurityToken));
    assert_eq!(security_token_from(&some(vec![None, Some("c")])), Err(MissingToken::SecurityToken));
    assert_eq!(security_token_from(&some(vec![Some("c"), Some("d")])), Ok("c".to_string()));
    assert_eq!(first_value(&some(vec![Some("x")])), Some("x".to_string()));
    assert_eq!(first_value(&some(vec![])), None);
}
