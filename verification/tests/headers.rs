use http_forward::{
    compare_str, eq_ignore_ascii_case, extract_exposed_headers, has_content_type_header,
    join_strings, retry_after_header, to_ascii_lowercase, with_default_content_type,
    ExposedHeaders, KeyOrder,
};

fn pairs(items: &[(&str, &str)]) -> Vec<(String, String)> {
    items
        .iter()
        .map(|(k, v)| ((*k).to_owned(), (*v).to_owned()))
        .collect()
}

#[test]
fn header_keys_lowercased() {
    let headers = pairs(&[("x-request-id", "abc"), ("x-request-id", "def")]);

    let allowlist = vec!["X-Request-Id".to_ascii_lowercase()];
    let exposed = extract_exposed_headers(&headers, &allowlist);

    assert_eq!(exposed.get("x-request-id").unwrap(), "abc, def");
}

#[test]
fn exposure_ignores_allowlist_order_and_case() {
    let headers = pairs(&[
        ("content-type", "application/json"),
        ("x-request-id", "r1"),
        ("set-cookie", "secret"),
    ]);
    let a = extract_exposed_headers(
        &headers,
        &vec!["X-Request-Id".to_owned(), "Content-Type".to_owned(), "X-Missing".to_owned()],
    );
    let b = extract_exposed_headers(
        &headers,
        &vec!["x-missing".to_owned(), "content-type".to_owned(), "x-request-id".to_owned()],
    );
    assert_eq!(a, b);
    assert_eq!(a.len(), 2);
    assert_eq!(a.get("content-type").unwrap(), "application/json");
    assert_eq!(a.get("x-request-id").unwrap(), "r1");
    assert!(a.get("set-cookie").is_none());
    assert!(a.get("x-missing").is_none());
    assert!(a.get("X-Request-Id").is_none());
}

#[test]
fn exposed_headers_keep_key_order_and_last_write() {
    let mut h = ExposedHeaders::new();
    h.insert("b".to_owned(), "1".to_owned());
    h.insert("a".to_owned(), "2".to_owned());
    h.insert("c".to_owned(), "3".to_owned());
    h.insert("b".to_owned(), "4".to_owned());
    let keys: Vec<&str> = h.entries().iter().map(|(k, _)| k.as_str()).collect();
    assert_eq!(keys, vec!["a", "b", "c"]);
    assert_eq!(h.get("b").unwrap(), "4");
    assert_eq!(h.len(), 3);
    let c = h.clone();
    assert_eq!(c, h);
}

#[test]
fn content_type_detection_is_case_insensitive() {
    assert!(has_content_type_header(&pairs(&[("Content-Type", "text/plain")])));
    assert!(!has_content_type_header(&pairs(&[("content-length", "3")])));
    assert!(!has_content_type_header(&[]));
}

#[test]
fn default_content_type_added_only_when_missing() {
    let added = with_default_content_type(pairs(&[("x-a", "1")]), Some("application/json"));
    assert_eq!(added, pairs(&[("x-a", "1"), ("content-type", "application/json")]));
    let kept = with_default_content_type(pairs(&[("CONTENT-TYPE", "text/csv")]), Some("application/json"));
    assert_eq!(kept, pairs(&[("CONTENT-TYPE", "text/csv")]));
    let none = with_default_content_type(pairs(&[("x-a", "1")]), None);
    assert_eq!(none, pairs(&[("x-a", "1")]));
}

#[test]
fn retry_after_lookup_takes_first_value() {
    let h = pairs(&[("x-a", "1"), ("Retry-After", "3"), ("retry-after", "9")]);
    assert_eq!(retry_after_header(&h), Some("3".to_owned()));
    assert_eq!(retry_after_header(&pairs(&[("x-a", "1")])), None);
}

#[test]
fn text_helpers() {
    assert_eq!(to_ascii_lowercase("X-Req-ÄB"), "x-req-Äb");
    assert!(eq_ignore_ascii_case("Content-Type", "content-TYPE"));
    assert!(!eq_ignore_ascii_case("a", "b"));
    assert_eq!(join_strings(&vec!["a".to_owned(), "b".to_owned(), "c".to_owned()], ", "), "a, b, c");
    assert_eq!(join_strings(&vec![], ", "), "");
    assert_eq!(compare_str("a", "b"), KeyOrder::Less);
    assert_eq!(compare_str("b", "a"), KeyOrder::Greater);
    assert_eq!(compare_str("ab", "ab"), KeyOrder::Equal);
    assert_eq!(compare_str("a", "ab"), KeyOrder::Less);
    assert_eq!(compare_str("Z", "a"), KeyOrder::Less);
}

#[test]
fn lowercasing_matches_std_on_edge_cases() {
    for s in ["", "@[`{", "AZaz09", "ÀÉÎ straße İ", "Content-TYPE"] {
        assert_eq!(to_ascii_lowercase(s), s.to_ascii_lowercase());
    }
}
