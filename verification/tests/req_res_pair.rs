use std::sync::Arc;

use rocket::outcome::Status;
use rocket::req_res_pair::{WireError, PayloadKind, Released, ReqResPair};
use rocket::response::{decimal_digits, Body, Header, Response};

type Pair = ReqResPair<&'static str, String, Vec<u8>>;
type Payload = PayloadKind<&'static str, String, Vec<u8>>;

fn header(name: &str, value: &str) -> Header {
    Header { name: name.to_string(), value: value.to_string() }
}

fn response(code: u16, headers: Vec<Header>, body: Option<Body<Vec<u8>>>) -> Response<Vec<u8>> {
    Response { status: Status { code }, headers, body }
}

fn pair_with(response: Response<Vec<u8>>) -> Pair {
    let mut pair: Pair = ReqResPair::new(Arc::new("manifest"));
    let set: Result<(), ()> = pair.try_set_request(|m| Ok(format!("request of {}", m)));
    assert!(set.is_ok());
    pair.set_response(response);
    pair
}

fn sent(
    response: Response<Vec<u8>>,
) -> Result<(hyper::http::response::Parts, Payload), WireError> {
    let pair = pair_with(response);
    assert!(pair.wire_refusal().is_none());
    pair.into_hyper_response()
}

fn failure(response: Response<Vec<u8>>) -> String {
    match sent(response) {
        Ok(_) => panic!("the response was accepted"),
        Err(refused) => {
            assert_eq!(refused.error.kind(), std::io::ErrorKind::Other);
            assert!(refused.error.get_ref().unwrap().is::<hyper::http::Error>());
            assert_eq!(refused.error.to_string(), refused.text);
            refused.text
        }
    }
}

fn values(parts: &hyper::http::response::Parts, name: &str) -> Vec<String> {
    let all = parts.headers.get_all(name);
    all.iter().map(|v| String::from_utf8(v.as_bytes().to_vec()).unwrap()).collect()
}

#[test]
fn empty_response_announces_no_bytes() {
    let (parts, payload) = sent(response(404, vec![], None)).ok().unwrap();
    assert_eq!(parts.status.as_u16(), 404);
    assert_eq!(values(&parts, "content-length"), vec!["0"]);
    assert_eq!(parts.headers.len(), 1);
    let mut payload = payload;
    assert!(matches!(payload, PayloadKind::Empty));
    assert!(payload.source_refusal().is_none());
    assert!(payload.source().is_none());
}

#[test]
fn sized_response_announces_its_size() {
    let body = Some(Body::Sized(vec![1, 2, 3], 12345));
    let (parts, mut payload) = sent(response(200, vec![], body)).ok().unwrap();
    assert_eq!(values(&parts, "content-length"), vec!["12345"]);
    assert!(payload.source_refusal().is_none());
    let stream = payload.source().unwrap();
    assert_eq!(stream.inner, vec![1, 2, 3]);
    assert_eq!(stream.chunk_size, 4096);
}

#[test]
fn chunked_response_announces_no_size() {
    let body = Some(Body::Chunked(vec![9], 17));
    let (parts, mut payload) = sent(response(200, vec![], body)).ok().unwrap();
    assert_eq!(parts.headers.len(), 0);
    let stream = payload.source().unwrap();
    assert_eq!(stream.inner, vec![9]);
    assert_eq!(stream.chunk_size, 17);
}

#[test]
fn headers_go_over_the_wire_in_order() {
    let headers = vec![
        header("Set-Cookie", "a=1"),
        header("X-Quote\"", "tab\there"),
        header("SET-cookie", "b=2"),
        header("x-utf8", "h\u{e9}llo"),
    ];
    let (parts, _) = sent(response(418, headers, None)).ok().unwrap();
    assert_eq!(parts.status.as_u16(), 418);
    assert_eq!(values(&parts, "set-cookie"), vec!["a=1", "b=2"]);
    assert_eq!(values(&parts, "x-quote\""), vec!["tab\there"]);
    assert_eq!(values(&parts, "x-utf8"), vec!["h\u{e9}llo"]);
    assert_eq!(parts.headers.len(), 5);
}

#[test]
fn announced_size_comes_after_a_given_one() {
    let headers = vec![header("Content-Length", "7")];
    let body = Some(Body::Sized(vec![], 8));
    let (parts, _) = sent(response(200, headers, body)).ok().unwrap();
    assert_eq!(values(&parts, "content-length"), vec!["7", "8"]);
}

#[test]
fn bad_status_is_refused() {
    assert_eq!(failure(response(99, vec![], None)), "invalid status code");
    assert_eq!(failure(response(1000, vec![], None)), "invalid status code");
    assert!(sent(response(100, vec![], None)).is_ok());
    assert!(sent(response(999, vec![], None)).is_ok());
}

#[test]
fn bad_headers_are_refused() {
    let name = "invalid HTTP header name";
    let value = "failed to parse header value";
    assert_eq!(failure(response(200, vec![header("", "x")], None)), name);
    assert_eq!(failure(response(200, vec![header("a b", "x")], None)), name);
    assert_eq!(failure(response(200, vec![header("a:", "x")], None)), name);
    assert_eq!(failure(response(200, vec![header("h\u{e9}", "x")], None)), name);
    assert_eq!(failure(response(200, vec![header("a", "x\ny")], None)), value);
    assert_eq!(failure(response(200, vec![header("a", "\u{7f}")], None)), value);
    assert_eq!(failure(response(200, vec![header("a b", "x\ny")], None)), name);
    let both = vec![header("a", "x\ny"), header("a b", "x")];
    assert_eq!(failure(response(200, both, None)), value);
    assert_eq!(failure(response(0, vec![header("", "")], None)), "invalid status code");
}

#[test]
fn characters_of_names_are_those_of_the_grammar() {
    for c in 0u8..128 {
        let c = c as char;
        let fine = c.is_ascii_alphanumeric() || "!\"#$%&'*+-.^_`|~".contains(c);
        let one = vec![header(&c.to_string(), "")];
        assert_eq!(sent(response(200, one, None)).is_ok(), fine);
        let long = vec![header(&c.to_string().repeat(100), "")];
        assert_eq!(sent(response(200, long, None)).is_ok(), fine);
    }
}

#[test]
fn long_names_are_bounded() {
    let name = "a".repeat(65535);
    assert!(sent(response(200, vec![header(&name, "")], None)).is_ok());
    let name = "a".repeat(65536);
    let text = failure(response(200, vec![header(&name, "")], None));
    assert_eq!(text, "invalid HTTP header name");
}

#[test]
fn too_many_headers_are_refused() {
    let many = |n: usize| (0..n).map(|i| header(&format!("x-{}", i), "1")).collect();
    let (parts, _) = sent(response(200, many(6552), None)).ok().unwrap();
    assert_eq!(parts.headers.len(), 6553);
    assert_eq!(failure(response(200, many(24576), None)), "max size reached");
    assert_eq!(failure(response(200, many(30000), None)), "max size reached");
    let same: Vec<Header> = (0..30000).map(|_| header("X-Same", "1")).collect();
    let (parts, _) = sent(response(200, same, None)).ok().unwrap();
    assert_eq!(parts.headers.len(), 30001);
}

#[test]
fn calls_out_of_order_are_refused() {
    let mut pair: Pair = ReqResPair::new(Arc::new("m"));
    assert_eq!(pair.request_refusal(), None);
    assert_eq!(
        pair.response_refusal(),
        Some("set_response was called before try_set_request")
    );
    assert_eq!(
        pair.wire_refusal(),
        Some("into_hyper_response was called before set_response")
    );
    let set: Result<(), ()> = pair.try_set_request(|_| Ok("r".to_string()));
    assert!(set.is_ok());
    assert_eq!(pair.request_refusal(), None);
    assert_eq!(pair.response_refusal(), None);
    pair.set_response(response(200, vec![], None));
    assert_eq!(
        pair.request_refusal(),
        Some("try_set_request was called after set_response")
    );
    assert_eq!(pair.response_refusal(), Some("set_response was called twice"));
    assert_eq!(pair.wire_refusal(), None);
}

#[test]
fn failed_request_leaves_the_pair_alone() {
    let mut pair: Pair = ReqResPair::new(Arc::new("m"));
    assert_eq!(pair.try_set_request(|m| Err(format!("no {}", m))), Err("no m".to_string()));
    assert!(pair.response_refusal().is_some());
    let set: Result<(), String> = pair.try_set_request(|_| Ok("first".to_string()));
    assert!(set.is_ok());
    assert!(pair.try_set_request(|_| Err(())).is_err());
    assert_eq!(pair.response_source().1, "first");
}

#[test]
fn response_is_made_from_manifest_and_request() {
    let mut pair: Pair = ReqResPair::new(Arc::new("manifest"));
    let set: Result<(), ()> = pair.try_set_request(|_| Ok("request".to_string()));
    assert!(set.is_ok());
    {
        let (manifest, request) = pair.response_source();
        assert_eq!(*manifest, "manifest");
        request.push_str(" changed");
    }
    assert_eq!(pair.response_source().1, "request changed");
}

#[test]
fn request_is_released_after_what_borrows_from_it() {
    let body = Some(Body::Sized(vec![5], 1));
    let (_, payload) = sent(response(201, vec![], body)).ok().unwrap();
    let mut pair = match payload {
        PayloadKind::ReqRes(pair) => pair,
        PayloadKind::Empty => panic!("there is a body"),
    };
    assert!(matches!(pair.release_next(), Some(Released::Stream(s)) if s.inner == vec![5]));
    match pair.release_next() {
        Some(Released::Response(r)) => {
            assert_eq!(r.status.code, 201);
            assert!(r.body.is_none());
        }
        _ => panic!("the response comes next"),
    }
    let request = "request of manifest";
    assert!(matches!(pair.release_next(), Some(Released::Request(r)) if r == request));
    assert!(pair.release_next().is_none());
}

#[test]
fn payload_without_stream_is_refused() {
    let payload: Payload = PayloadKind::ReqRes(ReqResPair::new(Arc::new("m")));
    assert_eq!(
        payload.source_refusal(),
        Some("internal invariant broken: PayloadKind.stream was None")
    );
}

#[test]
fn body_is_taken_once() {
    let mut response = response(200, vec![], Some(Body::Chunked(vec![1], 2)));
    assert!(matches!(response.take_body(), Some(Body::Chunked(b, 2)) if b == vec![1]));
    assert!(response.take_body().is_none());
}

#[test]
fn digits_are_decimal() {
    for n in [0, 7, 9, 10, 99, 100, 4096, 1234567890, u64::MAX] {
        assert_eq!(decimal_digits(n), n.to_string().into_bytes());
    }
}
