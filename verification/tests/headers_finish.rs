use bytes::Bytes;
use http::header::{ALLOW, CONTENT_LENGTH, CONTENT_TYPE};
use http::{HeaderMap, HeaderValue};
use tower_router::finish::{set_allow_header, set_content_length, BodySizeHint};

fn exact(n: u64) -> BodySizeHint {
    BodySizeHint { lower: n, upper: Some(n) }
}

#[test]
fn exact_size_only_when_bounds_agree() {
    assert_eq!(exact(7).exact(), Some(7));
    assert_eq!(BodySizeHint { lower: 3, upper: Some(9) }.exact(), None);
    assert_eq!(BodySizeHint { lower: 3, upper: None }.exact(), None);
    assert_eq!(BodySizeHint { lower: 0, upper: Some(0) }.exact(), Some(0));
}

#[test]
fn allow_header_is_added_when_missing() {
    let mut headers = HeaderMap::new();
    let mut allow = Some(Bytes::from_static(b"GET,HEAD"));
    set_allow_header(&mut headers, &mut allow).unwrap();
    assert!(allow.is_none());
    assert_eq!(headers.get(ALLOW).unwrap(), "GET,HEAD");
    assert_eq!(headers.len(), 1);
}

#[test]
fn allow_header_is_not_replaced() {
    let mut headers = HeaderMap::new();
    headers.insert(ALLOW, HeaderValue::from_static("POST"));
    let mut allow = Some(Bytes::from_static(b"GET"));
    set_allow_header(&mut headers, &mut allow).unwrap();
    assert!(allow.is_none());
    assert_eq!(headers.get(ALLOW).unwrap(), "POST");
    assert_eq!(headers.len(), 1);
}

#[test]
fn no_allow_value_leaves_headers() {
    let mut headers = HeaderMap::new();
    headers.insert(CONTENT_TYPE, HeaderValue::from_static("text/plain"));
    let mut allow = None;
    set_allow_header(&mut headers, &mut allow).unwrap();
    assert!(allow.is_none());
    assert!(!headers.contains_key(ALLOW));
    assert_eq!(headers.len(), 1);
}

#[test]
fn content_length_zero() {
    let mut headers = HeaderMap::new();
    set_content_length(exact(0), &mut headers).unwrap();
    assert_eq!(headers.get(CONTENT_LENGTH).unwrap(), "0");
}

#[test]
fn content_length_is_decimal() {
    let mut headers = HeaderMap::new();
    set_content_length(exact(1234), &mut headers).unwrap();
    assert_eq!(headers.get(CONTENT_LENGTH).unwrap(), "1234");

    let mut headers = HeaderMap::new();
    set_content_length(exact(10), &mut headers).unwrap();
    assert_eq!(headers.get(CONTENT_LENGTH).unwrap(), "10");

    let mut headers = HeaderMap::new();
    set_content_length(exact(u64::MAX), &mut headers).unwrap();
    assert_eq!(headers.get(CONTENT_LENGTH).unwrap(), "18446744073709551615");
}

#[test]
fn content_length_is_not_replaced() {
    let mut headers = HeaderMap::new();
    headers.insert(CONTENT_LENGTH, HeaderValue::from_static("99"));
    set_content_length(exact(5), &mut headers).unwrap();
    assert_eq!(headers.get(CONTENT_LENGTH).unwrap(), "99");
    assert_eq!(headers.len(), 1);
}

#[test]
fn content_length_needs_exact_size() {
    let mut headers = HeaderMap::new();
    set_content_length(BodySizeHint { lower: 5, upper: Some(6) }, &mut headers).unwrap();
    assert!(!headers.contains_key(CONTENT_LENGTH));
    set_content_length(BodySizeHint { lower: 0, upper: None }, &mut headers).unwrap();
    assert!(headers.is_empty());
}

#[test]
fn content_length_set_once_law() {
    let mut headers = HeaderMap::new();
    set_content_length(exact(42), &mut headers).unwrap();
    set_content_length(exact(7), &mut headers).unwrap();
    set_content_length(BodySizeHint { lower: 1, upper: None }, &mut headers).unwrap();
    assert_eq!(headers.get(CONTENT_LENGTH).unwrap(), "42");
    assert_eq!(headers.len(), 1);
}

#[test]
fn other_headers_untouched_law() {
    let mut headers = HeaderMap::new();
    headers.insert(CONTENT_TYPE, HeaderValue::from_static("text/html"));
    headers.append("x-a", HeaderValue::from_static("1"));
    headers.append("x-a", HeaderValue::from_static("2"));
    let mut allow = Some(Bytes::from_static(b"GET"));
    set_allow_header(&mut headers, &mut allow).unwrap();
    set_content_length(exact(3), &mut headers).unwrap();
    assert_eq!(headers.get(CONTENT_TYPE).unwrap(), "text/html");
    let xa: Vec<_> = headers.get_all("x-a").iter().collect();
    assert_eq!(xa, vec!["1", "2"]);
    assert_eq!(headers.keys_len(), 4);
}

#[test]
fn allow_and_length_commute_law() {
    let mut first = HeaderMap::new();
    let mut allow = Some(Bytes::from_static(b"GET"));
    set_allow_header(&mut first, &mut allow).unwrap();
    set_content_length(exact(12), &mut first).unwrap();

    let mut second = HeaderMap::new();
    let mut allow = Some(Bytes::from_static(b"GET"));
    set_content_length(exact(12), &mut second).unwrap();
    set_allow_header(&mut second, &mut allow).unwrap();

    assert_eq!(first, second);
}

fn map_with_names(n: usize) -> HeaderMap {
    let mut headers = HeaderMap::new();
    for i in 0..n {
        let name = http::HeaderName::from_bytes(format!("x-h{}", i).as_bytes()).unwrap();
        headers.try_insert(name, HeaderValue::from_static("v")).unwrap();
    }
    headers
}

#[test]
fn full_table_refuses_headers() {
    let mut headers = map_with_names(24576);
    let before = headers.clone();
    let mut allow = Some(Bytes::from_static(b"GET"));
    assert!(set_allow_header(&mut headers, &mut allow).is_err());
    assert!(allow.is_none());
    assert_eq!(headers, before);
    assert!(set_content_length(exact(3), &mut headers).is_err());
    assert_eq!(headers, before);
    // nothing due: nothing to refuse
    assert!(set_content_length(BodySizeHint { lower: 3, upper: None }, &mut headers).is_ok());
    let mut allow = None;
    assert!(set_allow_header(&mut headers, &mut allow).is_ok());
    assert_eq!(headers, before);
}
