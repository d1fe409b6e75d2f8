use portal_auth::json::Json;
use portal_auth::profile::{extract_id, find_profile_id};

fn document(value: &serde_json::Value) -> Json {
    match value {
        serde_json::Value::Null => Json::Null,
        serde_json::Value::Bool(flag) => Json::Bool(*flag),
        serde_json::Value::Number(number) => Json::Number(number.to_string()),
        serde_json::Value::String(text) => Json::Text(text.clone()),
        serde_json::Value::Array(items) => Json::Array(items.iter().map(document).collect()),
        serde_json::Value::Object(members) => Json::Object(
            members.iter().map(|(name, value)| (name.clone(), document(value))).collect(),
        ),
    }
}

fn parsed(text: &str) -> Json {
    document(&serde_json::from_str::<serde_json::Value>(text).unwrap())
}

#[test]
fn numeric_id_in_wrapping_object() {
    assert_eq!(find_profile_id(&parsed(r#"{"data":{"id":42}}"#)), Some("42".to_string()));
}

#[test]
fn array_yields_id_of_first_element() {
    assert_eq!(
        find_profile_id(&parsed(r#"[{"id":"abc"},{"id":"zzz"}]"#)),
        Some("abc".to_string())
    );
}

#[test]
fn empty_and_scalar_documents_have_no_profile() {
    assert_eq!(find_profile_id(&parsed("{}")), None);
    assert_eq!(find_profile_id(&parsed("[]")), None);
    assert_eq!(find_profile_id(&parsed(r#""string""#)), None);
    assert_eq!(find_profile_id(&parsed("null")), None);
    assert_eq!(find_profile_id(&parsed("17")), None);
    assert_eq!(find_profile_id(&parsed("true")), None);
}

#[test]
fn array_is_not_searched_beyond_first_elements_own_id() {
    assert_eq!(find_profile_id(&parsed(r#"[{"data":{"id":1}}]"#)), None);
    assert_eq!(find_profile_id(&parsed(r#"[{"name":"x"},{"id":"zzz"}]"#)), None);
    assert_eq!(find_profile_id(&parsed(r#"[7,{"id":"zzz"}]"#)), None);
}

#[test]
fn nested_id_wins_over_own_id() {
    let doc = Json::Object(vec![
        ("id".to_string(), Json::Text("outer".to_string())),
        (
            "profile".to_string(),
            Json::Object(vec![("id".to_string(), Json::Text("inner".to_string()))]),
        ),
    ]);
    assert_eq!(find_profile_id(&doc), Some("inner".to_string()));
}

#[test]
fn members_are_searched_in_order() {
    let doc = Json::Object(vec![
        ("b".to_string(), Json::Object(vec![("id".to_string(), Json::Number("2".to_string()))])),
        ("a".to_string(), Json::Object(vec![("id".to_string(), Json::Number("1".to_string()))])),
    ]);
    assert_eq!(find_profile_id(&doc), Some("2".to_string()));
}

#[test]
fn own_id_is_used_when_no_member_holds_one() {
    assert_eq!(
        find_profile_id(&parsed(r#"{"name":"n","id":"self","tags":[]}"#)),
        Some("self".to_string())
    );
    assert_eq!(find_profile_id(&parsed(r#"{"id":-7}"#)), Some("-7".to_string()));
    assert_eq!(find_profile_id(&parsed(r#"{"id":1.5}"#)), Some("1.5".to_string()));
}

#[test]
fn id_of_another_kind_is_no_id() {
    assert_eq!(find_profile_id(&parsed(r#"{"id":true}"#)), None);
    assert_eq!(find_profile_id(&parsed(r#"{"id":null}"#)), None);
    assert_eq!(find_profile_id(&parsed(r#"{"id":["x"]}"#)), None);
    assert_eq!(find_profile_id(&parsed(r#"{"id":{"value":"x"}}"#)), None);
}

#[test]
fn array_member_yields_first_elements_id() {
    assert_eq!(
        find_profile_id(&parsed(r#"{"profiles":[{"id":9,"kind":"student"},{"id":10}]}"#)),
        Some("9".to_string())
    );
}

#[test]
fn own_id_reads_only_the_value_itself() {
    assert_eq!(extract_id(&parsed(r#"{"data":{"id":42}}"#)), None);
    assert_eq!(extract_id(&parsed(r#"{"id":"mine"}"#)), Some("mine".to_string()));
    assert_eq!(extract_id(&parsed(r#"[{"id":"mine"}]"#)), None);
    let twice = Json::Object(vec![
        ("id".to_string(), Json::Text("first".to_string())),
        ("id".to_string(), Json::Text("second".to_string())),
    ]);
    assert_eq!(extract_id(&twice), Some("first".to_string()));
}
