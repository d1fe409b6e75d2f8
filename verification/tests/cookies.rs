use portal_auth::cookies::{
    cookie_directives, cookie_pairs, fill_jar, flat_cookies, jar_from_cookies, serialize_cookies,
};
use portal_auth::text::{chars_of, followed_by, matches_at, same_text, split_text};

fn sorted_pairs(text: &str) -> Vec<String> {
    let mut pairs = cookie_pairs(text);
    pairs.sort();
    pairs
}

#[test]
fn pairs_of_flat_text() {
    assert_eq!(cookie_pairs("a=1; b=2"), vec!["a=1".to_string(), "b=2".to_string()]);
    assert_eq!(cookie_pairs("a=1"), vec!["a=1".to_string()]);
}

#[test]
fn empty_text_has_no_pairs() {
    assert_eq!(cookie_pairs(""), Vec::<String>::new());
    assert_eq!(cookie_directives(""), Vec::<String>::new());
}

#[test]
fn empty_pieces_are_left_out() {
    assert_eq!(cookie_pairs("; a=1; ; b=2; "), vec!["a=1".to_string(), "b=2".to_string()]);
    assert_eq!(cookie_pairs("; "), Vec::<String>::new());
}

#[test]
fn only_semicolon_and_space_separates() {
    assert_eq!(cookie_pairs("a=1;b=2"), vec!["a=1;b=2".to_string()]);
    assert_eq!(cookie_pairs("a=1;; b=2"), vec!["a=1;".to_string(), "b=2".to_string()]);
    assert_eq!(cookie_pairs("a=1;  b=2"), vec!["a=1".to_string(), " b=2".to_string()]);
}

#[test]
fn directives_are_scoped_to_the_portal() {
    assert_eq!(
        cookie_directives("a=1; b=2"),
        vec![
            "a=1; Domain=sis-portal.uom.gr; Path=/".to_string(),
            "b=2; Domain=sis-portal.uom.gr; Path=/".to_string(),
        ]
    );
}

#[test]
fn text_is_cut_from_the_left() {
    assert_eq!(split_text("a; b", "; "), vec!["a".to_string(), "b".to_string()]);
    assert_eq!(split_text("", "; "), vec![String::new()]);
    assert_eq!(split_text("; ", "; "), vec![String::new(), String::new()]);
    assert_eq!(split_text("aaa", "aa"), vec![String::new(), "a".to_string()]);
    assert_eq!(split_text("x", "longer"), vec!["x".to_string()]);
    assert_eq!(split_text("a; b", ""), vec!["a; b".to_string()]);
    assert_eq!(split_text("", ""), vec![String::new()]);
    assert_eq!(
        split_text("α; β; γ", "; "),
        vec!["α".to_string(), "β".to_string(), "γ".to_string()]
    );
}

#[test]
fn text_helpers() {
    assert_eq!(chars_of("aβc"), vec!['a', 'β', 'c']);
    assert!(matches_at(&chars_of("a; b"), &chars_of("; "), 1));
    assert!(!matches_at(&chars_of("a; b"), &chars_of("; "), 0));
    assert!(!matches_at(&chars_of("a; b"), &chars_of("; "), 3));
    assert!(!matches_at(&chars_of("a; b"), &chars_of("; "), 9));
    assert!(!matches_at(&chars_of("a"), &chars_of("longer"), 0));
    assert!(matches_at(&chars_of("a"), &chars_of(""), 1));
    assert!(same_text("id", "id"));
    assert!(!same_text("id", "Id"));
    assert_eq!(followed_by("ab", "cd"), "abcd".to_string());
}

#[test]
fn no_header_gives_empty_text() {
    assert_eq!(flat_cookies(None), String::new());
    assert_eq!(flat_cookies(Some("a=1; b=2".to_string())), "a=1; b=2".to_string());
}

#[test]
fn empty_jar_serializes_to_empty_text() {
    let jar = jar_from_cookies("");
    assert_eq!(serialize_cookies(&jar), String::new());
    let none = fill_jar(&Vec::new());
    assert_eq!(serialize_cookies(&none), String::new());
}

#[test]
fn jar_keeps_what_it_was_filled_with() {
    let jar = jar_from_cookies("JSESSIONID=abc123");
    assert_eq!(serialize_cookies(&jar), "JSESSIONID=abc123".to_string());
}

#[test]
fn jar_round_trip_keeps_names_and_values() {
    let first = jar_from_cookies("a=1; b=2");
    let text = serialize_cookies(&first);
    assert_eq!(sorted_pairs(&text), vec!["a=1".to_string(), "b=2".to_string()]);
    let second = jar_from_cookies(&text);
    let again = serialize_cookies(&second);
    assert_eq!(sorted_pairs(&again), sorted_pairs(&text));
}

#[test]
fn jar_is_filled_for_the_portal_only() {
    let jar = fill_jar(&vec!["a=1; Domain=example.org; Path=/".to_string()]);
    assert_eq!(serialize_cookies(&jar), String::new());
    let scoped = fill_jar(&cookie_directives("a=1"));
    let url = "https://sis-portal.uom.gr/feign/student/student_data".parse::<url::Url>().unwrap();
    let header = reqwest::cookie::CookieStore::cookies(&scoped, &url).unwrap();
    assert_eq!(header.to_str().unwrap(), "a=1");
    let elsewhere = "https://sso.uom.gr/login".parse::<url::Url>().unwrap();
    assert!(reqwest::cookie::CookieStore::cookies(&scoped, &elsewhere).is_none());
}

#[test]
fn jar_sends_no_pair_that_it_was_not_handed() {
    let jar = jar_from_cookies("a=1; gone=x;Max-Age=0; b=2");
    assert_eq!(sorted_pairs(&serialize_cookies(&jar)), vec!["a=1".to_string(), "b=2".to_string()]);
    let replaced = fill_jar(&cookie_directives("a=1; a=2"));
    assert_eq!(serialize_cookies(&replaced), "a=2".to_string());
    let refused = fill_jar(&vec!["no pair here".to_string(), "=".to_string()]);
    assert_eq!(serialize_cookies(&refused), String::new());
}

#[test]
fn jar_always_sends_what_it_was_filled_with_for_the_portal() {
    let jar = jar_from_cookies("sid=abc; theme=dark; sid=xyz");
    assert_eq!(
        sorted_pairs(&serialize_cookies(&jar)),
        vec!["sid=xyz".to_string(), "theme=dark".to_string()]
    );
    let trimmed = fill_jar(&cookie_directives("  a = 1 "));
    assert_eq!(serialize_cookies(&trimmed), "a=1".to_string());
    let same_again = fill_jar(&cookie_directives("a=1; b=2; a=1"));
    assert_eq!(sorted_pairs(&serialize_cookies(&same_again)), vec!["a=1".to_string(), "b=2".to_string()]);
    let taken_away = fill_jar(&cookie_directives("a=1; a=1;Max-Age=0"));
    assert_eq!(serialize_cookies(&taken_away), String::new());
}

#[test]
fn jar_with_what_cannot_stand_in_a_header_sends_none() {
    let jar = jar_from_cookies("a=\u{3b1}");
    assert_eq!(serialize_cookies(&jar), String::new());
}

#[test]
fn jar_reads_a_pair_as_it_is_written() {
    assert_eq!(serialize_cookies(&jar_from_cookies("a=b=c")), "a=b=c".to_string());
    assert_eq!(serialize_cookies(&jar_from_cookies("a=")), "a=".to_string());
    assert_eq!(serialize_cookies(&jar_from_cookies("x y=z w")), "x y=z w".to_string());
    assert_eq!(serialize_cookies(&jar_from_cookies("=1")), String::new());
    assert_eq!(serialize_cookies(&jar_from_cookies("novalue")), String::new());
    let elsewhere = fill_jar(&vec!["a=1; Domain=sis-portal.uom.gr; Path=/; Domain=sso.uom.gr".to_string()]);
    assert_eq!(serialize_cookies(&elsewhere), String::new());
}
