use tide::http::{Method, Request, Url};
use tide_compress::{capture, select, Codecs, Encoding, HeaderParseError};

fn request(method: Method) -> Request {
    Request::new(method, Url::parse("http://localhost/").unwrap())
}

#[test]
fn head_is_noticed() {
    let kept = capture(&request(Method::Head)).ok().unwrap();
    assert!(kept.is_head);
    assert!(kept.accepts.is_none());
}

#[test]
fn other_methods_are_not_head() {
    for method in [Method::Get, Method::Post, Method::Put, Method::Delete, Method::Options] {
        let kept = capture(&request(method)).ok().unwrap();
        assert!(!kept.is_head);
    }
}

#[test]
fn no_header_means_no_preferences() {
    let kept = capture(&request(Method::Get)).ok().unwrap();
    assert!(kept.accepts.is_none());
}

#[test]
fn the_header_is_parsed() {
    let mut req = request(Method::Get);
    req.insert_header("Accept-Encoding", "br;q=0.8, gzip;q=1.0");
    let kept = capture(&req).ok().unwrap();
    assert!(!kept.is_head);
    let accepts = kept.accepts.unwrap();
    assert!(!accepts.wildcard());
    let codecs = Codecs { brotli: false, gzip: true, deflate: true };
    assert_eq!(select(accepts, &codecs), Encoding::Gzip);
}

#[test]
fn an_empty_header_is_present_but_prefers_nothing() {
    let mut req = request(Method::Get);
    req.insert_header("Accept-Encoding", "");
    let kept = capture(&req).ok().unwrap();
    let accepts = kept.accepts.unwrap();
    assert_eq!(select(accepts, &Codecs::all()), Encoding::Identity);
}

#[test]
fn a_wildcard_is_kept() {
    let mut req = request(Method::Head);
    req.insert_header("Accept-Encoding", "*");
    let kept = capture(&req).ok().unwrap();
    assert!(kept.is_head);
    let accepts = kept.accepts.unwrap();
    assert!(accepts.wildcard());
    assert_eq!(select(accepts, &Codecs::all()), Encoding::Brotli);
}

#[test]
fn a_malformed_weight_is_an_error() {
    let mut req = request(Method::Get);
    req.insert_header("Accept-Encoding", "gzip;q=high");
    assert!(matches!(capture(&req), Err(HeaderParseError::AcceptEncoding(_))));
    let mut req = request(Method::Get);
    req.insert_header("Accept-Encoding", "gzip;level=1");
    assert!(matches!(capture(&req), Err(HeaderParseError::AcceptEncoding(_))));
    let mut req = request(Method::Get);
    req.insert_header("Accept-Encoding", "gzip;q=1.5");
    assert!(matches!(capture(&req), Err(HeaderParseError::AcceptEncoding(_))));
}

#[test]
fn the_parsers_error_is_handed_on() {
    let mut req = request(Method::Get);
    req.insert_header("Accept-Encoding", "gzip;q=high");
    match capture(&req) {
        Err(HeaderParseError::AcceptEncoding(e)) => assert_eq!(e.status(), 400),
        _ => panic!("the header is malformed"),
    }
}
