use axum::http::header::{HeaderMap, HeaderName, HeaderValue, ACCEPT, CONTENT_TYPE, HOST};
use bff::handlers::{echo, healthz, not_found, root, STATUS_NOT_FOUND, STATUS_OK};

#[test]
fn status_codes_are_the_http_ones() {
    assert_eq!(STATUS_OK, 200);
    assert_eq!(STATUS_NOT_FOUND, 404);
}

#[test]
fn root_answers_ok_line() {
    let resp = root();
    assert_eq!(resp.status, 200);
    assert_eq!(resp.body, vec![b'o', b'k', b'\n']);
    assert_eq!(resp.body.len(), 3);
}

#[test]
fn root_is_plain_text() {
    let resp = root();
    assert_eq!(resp.headers.len(), 1);
    assert_eq!(
        resp.headers.get(CONTENT_TYPE).unwrap().as_bytes(),
        b"text/plain; charset=utf-8"
    );
}

#[test]
fn healthz_answers_empty_success() {
    let resp = healthz();
    assert_eq!(resp.status, 200);
    assert!(resp.body.is_empty());
    assert!(resp.headers.is_empty());
}

#[test]
fn not_found_answers_empty_404() {
    let resp = not_found();
    assert_eq!(resp.status, 404);
    assert!(resp.body.is_empty());
    assert!(resp.headers.is_empty());
}

#[test]
fn echo_hands_back_body_and_content_type() {
    let mut headers = HeaderMap::new();
    headers.insert(CONTENT_TYPE, HeaderValue::from_static("application/json"));
    let resp = echo(&headers, b"{\"a\":1}".to_vec());
    assert_eq!(resp.status, 200);
    assert_eq!(resp.body, b"{\"a\":1}".to_vec());
    assert_eq!(resp.headers.len(), 1);
    assert_eq!(
        resp.headers.get(CONTENT_TYPE).unwrap().as_bytes(),
        b"application/json"
    );
}

#[test]
fn echo_falls_back_to_octet_stream() {
    let headers = HeaderMap::new();
    let resp = echo(&headers, vec![1, 2, 3]);
    assert_eq!(resp.status, 200);
    assert_eq!(resp.body, vec![1, 2, 3]);
    assert_eq!(resp.headers.len(), 1);
    assert_eq!(
        resp.headers.get(CONTENT_TYPE).unwrap().as_bytes(),
        b"application/octet-stream"
    );
}

#[test]
fn echo_of_empty_body_is_empty() {
    let mut headers = HeaderMap::new();
    headers.insert(CONTENT_TYPE, HeaderValue::from_static("text/plain"));
    let resp = echo(&headers, Vec::new());
    assert_eq!(resp.status, 200);
    assert!(resp.body.is_empty());
    let bare = echo(&HeaderMap::new(), Vec::new());
    assert_eq!(bare.status, 200);
    assert!(bare.body.is_empty());
}

#[test]
fn echo_keeps_every_byte_value() {
    let mut body: Vec<u8> = Vec::new();
    for round in 0..3 {
        for b in 0..=255u8 {
            body.push(b.wrapping_add(round));
        }
    }
    let resp = echo(&HeaderMap::new(), body.clone());
    assert_eq!(resp.body.len(), 768);
    assert_eq!(resp.body, body);
}

#[test]
fn echo_finds_content_type_whatever_its_case() {
    let mut headers = HeaderMap::new();
    let name = HeaderName::from_bytes(b"Content-Type").unwrap();
    headers.insert(name, HeaderValue::from_static("image/png"));
    let resp = echo(&headers, vec![0x89, 0x50]);
    assert_eq!(
        resp.headers.get(CONTENT_TYPE).unwrap().as_bytes(),
        b"image/png"
    );
    let mut shouting = HeaderMap::new();
    let name = HeaderName::from_bytes(b"CONTENT-TYPE").unwrap();
    shouting.insert(name, HeaderValue::from_static("image/gif"));
    let resp = echo(&shouting, Vec::new());
    assert_eq!(
        resp.headers.get(CONTENT_TYPE).unwrap().as_bytes(),
        b"image/gif"
    );
}

#[test]
fn echo_copies_opaque_value_bytes_unchanged() {
    let mut headers = HeaderMap::new();
    let value = HeaderValue::from_bytes(b"text/x-\xfe\xff; q=\t1").unwrap();
    headers.insert(CONTENT_TYPE, value);
    let resp = echo(&headers, vec![7]);
    assert_eq!(
        resp.headers.get(CONTENT_TYPE).unwrap().as_bytes(),
        b"text/x-\xfe\xff; q=\t1"
    );
}

#[test]
fn echo_takes_the_first_of_several_content_types() {
    let mut headers = HeaderMap::new();
    headers.append(CONTENT_TYPE, HeaderValue::from_static("text/html"));
    headers.append(CONTENT_TYPE, HeaderValue::from_static("text/css"));
    let resp = echo(&headers, vec![b'x']);
    assert_eq!(resp.headers.len(), 1);
    assert_eq!(resp.headers.get(CONTENT_TYPE).unwrap().as_bytes(), b"text/html");
}

#[test]
fn echo_hands_back_no_other_header() {
    let mut headers = HeaderMap::new();
    headers.insert(HOST, HeaderValue::from_static("example.org"));
    headers.insert(ACCEPT, HeaderValue::from_static("*/*"));
    headers.insert(CONTENT_TYPE, HeaderValue::from_static("text/csv"));
    let resp = echo(&headers, b"a,b".to_vec());
    assert_eq!(resp.headers.len(), 1);
    assert_eq!(resp.headers.keys_len(), 1);
    assert!(resp.headers.get(HOST).is_none());
    assert!(resp.headers.get(ACCEPT).is_none());
    assert_eq!(resp.headers.get(CONTENT_TYPE).unwrap().as_bytes(), b"text/csv");
}

#[test]
fn echo_leaves_the_request_headers_alone() {
    let mut headers = HeaderMap::new();
    headers.insert(HOST, HeaderValue::from_static("example.org"));
    headers.insert(CONTENT_TYPE, HeaderValue::from_static("text/csv"));
    let _ = echo(&headers, Vec::new());
    assert_eq!(headers.len(), 2);
    assert_eq!(headers.get(HOST).unwrap().as_bytes(), b"example.org");
    assert_eq!(headers.get(CONTENT_TYPE).unwrap().as_bytes(), b"text/csv");
}

#[test]
fn echo_of_an_echo_is_the_same() {
    let mut headers = HeaderMap::new();
    headers.insert(HOST, HeaderValue::from_static("example.org"));
    headers.insert(CONTENT_TYPE, HeaderValue::from_static("text/csv"));
    let first = echo(&headers, b"1;2".to_vec());
    let second = echo(&first.headers, first.body.clone());
    assert_eq!(second.status, first.status);
    assert_eq!(second.body, first.body);
    assert_eq!(second.headers, first.headers);
    let bare = echo(&HeaderMap::new(), vec![9]);
    let again = echo(&bare.headers, bare.body.clone());
    assert_eq!(again.headers, bare.headers);
    assert_eq!(again.body, vec![9]);
}
