use reru::{
    connect, delete, encode_form, get, head, options, patch, post, put, trace, Method, Request,
};

fn query_of(req: &Request) -> Option<String> {
    req.url.query().map(|q| q.to_string())
}

#[test]
fn repeated_param_keeps_both_pairs_in_order() {
    let req = get("https://example.com/search")
        .unwrap()
        .param("q", "rust")
        .param("q", "lang");
    assert_eq!(query_of(&req), Some("q=rust&q=lang".to_string()));
    let prepared = req.prepare();
    assert_eq!(prepared.url.query(), Some("q=rust&q=lang"));
    assert_eq!(prepared.body, None);
}

#[test]
fn param_appends_after_existing_query_and_keeps_fragment() {
    let req = get("https://example.com/p?a=1#top")
        .unwrap()
        .param("b", "x y")
        .param("a", "&=");
    assert_eq!(req.url.as_str(), "https://example.com/p?a=1&b=x+y&a=%26%3D#top");
    let pairs: Vec<(String, String)> = req.url.query_pairs().into_owned().collect();
    assert_eq!(
        pairs,
        vec![
            ("a".to_string(), "1".to_string()),
            ("b".to_string(), "x y".to_string()),
            ("a".to_string(), "&=".to_string()),
        ]
    );
}

#[test]
fn json_body_is_sent_as_encoded() {
    let json = serde_json::to_vec(&["a", "b"]).unwrap();
    let prepared = post("https://example.com/post")
        .unwrap()
        .body_json_bytes(json)
        .prepare();
    assert_eq!(prepared.method, Method::Post);
    assert_eq!(prepared.body, Some(b"[\"a\",\"b\"]".to_vec()));
    assert_eq!(prepared.headers.to_string(), "Content-Type: application/json\r\n");
}

#[test]
fn form_fields_are_joined_in_order() {
    let prepared = post("https://example.com/post")
        .unwrap()
        .body_form("x", "1")
        .body_form("y", "2")
        .prepare();
    assert_eq!(prepared.body, Some(b"x=1&y=2".to_vec()));
    assert_eq!(
        prepared.headers.to_string(),
        "Content-Type: application/x-www-form-urlencoded\r\n"
    );
}

#[test]
fn many_form_fields_set_content_type_once() {
    let prepared = post("https://example.com/post")
        .unwrap()
        .body_form("a", "1")
        .body_form("a", "2")
        .body_form("b", "")
        .prepare();
    assert_eq!(prepared.body, Some(b"a=1&a=2&b=".to_vec()));
    assert_eq!(prepared.headers.len(), 1);
    assert_eq!(
        prepared.headers.to_string(),
        "Content-Type: application/x-www-form-urlencoded\r\n"
    );
}

#[test]
fn form_after_json_discards_buffer() {
    let prepared = post("https://example.com/post")
        .unwrap()
        .body_json_bytes(b"{}".to_vec())
        .body_form("k", "v")
        .prepare();
    assert_eq!(prepared.body, Some(b"k=v".to_vec()));
    assert_eq!(prepared.headers.len(), 1);
    assert_eq!(
        prepared.headers.to_string(),
        "Content-Type: application/x-www-form-urlencoded\r\n"
    );
}

#[test]
fn json_after_form_discards_fields() {
    let prepared = post("https://example.com/post")
        .unwrap()
        .body_form("k", "v")
        .body_json_bytes(b"[1]".to_vec())
        .prepare();
    assert_eq!(prepared.body, Some(b"[1]".to_vec()));
    assert_eq!(prepared.headers.len(), 1);
    assert_eq!(prepared.headers.to_string(), "Content-Type: application/json\r\n");
}

#[test]
fn malformed_url_is_refused() {
    assert_eq!(get("not a url").err(), Some(url::ParseError::RelativeUrlWithoutBase));
    assert!(Request::new(Method::Put, "http://[::1").is_err());
}

#[test]
fn new_request_has_no_headers_and_no_body() {
    let prepared = get("https://example.com/").unwrap().prepare();
    assert_eq!(prepared.method, Method::Get);
    assert_eq!(prepared.headers.len(), 0);
    assert_eq!(prepared.body, None);
    assert_eq!(prepared.url.query(), None);
}

#[test]
fn factories_bind_their_method() {
    let u = "http://example.com/";
    assert_eq!(options(u).unwrap().method, Method::Options);
    assert_eq!(get(u).unwrap().method, Method::Get);
    assert_eq!(post(u).unwrap().method, Method::Post);
    assert_eq!(put(u).unwrap().method, Method::Put);
    assert_eq!(delete(u).unwrap().method, Method::Delete);
    assert_eq!(head(u).unwrap().method, Method::Head);
    assert_eq!(trace(u).unwrap().method, Method::Trace);
    assert_eq!(connect(u).unwrap().method, Method::Connect);
    assert_eq!(patch(u).unwrap().method, Method::Patch);
}

#[test]
fn form_encoding_escapes_reserved_bytes() {
    let pairs = vec![
        ("a b".to_string(), "c&d=\u{e9}".to_string()),
        ("*-._~".to_string(), "+%#/".to_string()),
    ];
    assert_eq!(encode_form(&pairs), b"a+b=c%26d%3D%C3%A9&*-._%7E=%2B%25%23%2F".to_vec());
}

#[test]
fn form_encoding_of_no_pairs_is_empty() {
    assert_eq!(encode_form(&Vec::new()), Vec::<u8>::new());
    let one = vec![(String::new(), String::new())];
    assert_eq!(encode_form(&one), b"=".to_vec());
}

#[test]
fn param_escapes_reserved_characters() {
    let req = get("https://example.com/").unwrap().param("a b", "x&y=z");
    assert_eq!(query_of(&req), Some("a+b=x%26y%3Dz".to_string()));
}

#[test]
fn empty_param_is_written_as_equals_sign() {
    let req = get("https://example.com/").unwrap().param("", "");
    assert_eq!(query_of(&req), Some("=".to_string()));
}

#[test]
fn prepare_sends_the_request_url_and_headers() {
    let prepared = post("https://example.com/")
        .unwrap()
        .body_json_bytes(b"[\"a\",\"b\"]".to_vec())
        .prepare();
    assert_eq!(prepared.url.as_str(), "https://example.com/");
    assert_eq!(prepared.headers.to_string(), "Content-Type: application/json\r\n");
    assert_eq!(prepared.body, Some(b"[\"a\",\"b\"]".to_vec()));
}

#[test]
fn params_between_form_fields_change_only_the_query() {
    let prepared = post("https://example.com/p")
        .unwrap()
        .body_form("a b", "1")
        .param("q", "x")
        .body_form("k", "\u{e9}")
        .param("r", "y")
        .prepare();
    assert_eq!(prepared.url.as_str(), "https://example.com/p?q=x&r=y");
    assert_eq!(prepared.body, Some(b"a+b=1&k=%C3%A9".to_vec()));
    assert_eq!(prepared.headers.len(), 1);
}

#[test]
fn cloned_request_prepares_the_same() {
    let req = post("https://example.com/p").unwrap().param("q", "1").body_form("x", "y");
    let copy = req.clone();
    let a = req.prepare();
    let b = copy.prepare();
    assert_eq!(a.url, b.url);
    assert_eq!(a.body, b.body);
    assert_eq!(a.headers.to_string(), b.headers.to_string());
}
