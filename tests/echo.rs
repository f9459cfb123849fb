use request_echo::cookies::{cookies_from_parsed, cookies_of_header_text, request_cookies};
use request_echo::echo::{echo_handler, header_pairs, optional_text, EchoRequest};
use request_echo::text::header_value_text;

fn s(t: &str) -> String {
    t.to_string()
}

fn pairs(v: &[(&str, &str)]) -> Vec<(String, String)> {
    v.iter().map(|(a, b)| (s(a), s(b))).collect()
}

fn request(method: &str, path: &str, headers: Vec<(&str, &[u8])>, body: &[u8]) -> EchoRequest {
    EchoRequest {
        method: s(method),
        path: s(path),
        scheme: None,
        host: None,
        query: None,
        headers: headers.into_iter().map(|(n, v)| (s(n), v.to_vec())).collect(),
        body: body.to_vec(),
        ip: s("127.0.0.1"),
    }
}

#[test]
fn post_with_query_headers_and_body() {
    let mut req = request("POST", "/hello", vec![("x-test", b"a")], b"hi");
    req.query = Some(s("x=1&y=2"));
    let r = echo_handler(&req, &s("box"));
    assert_eq!(r.path, "/hello");
    assert_eq!(r.query, "x=1&y=2");
    assert_eq!(r.method, "POST");
    assert_eq!(r.body, "hi");
    assert!(r.headers.contains(&(s("x-test"), s("a"))));
    assert_eq!(r.headers, pairs(&[("x-test", "a")]));
    assert!(r.cookies.is_empty());
    assert_eq!(r.ip, "127.0.0.1");
    assert_eq!(r.os.hostname, "box");
}

#[test]
fn absent_parts_read_as_empty() {
    let req = request("GET", "/", vec![], b"");
    let r = echo_handler(&req, &s("box"));
    assert_eq!(r.path, "/");
    assert_eq!(r.hostname, "");
    assert_eq!(r.protocol, "");
    assert_eq!(r.query, "");
    assert_eq!(r.body, "");
    assert!(r.headers.is_empty());
    assert!(r.cookies.is_empty());
}

#[test]
fn absolute_uri_parts_are_reported() {
    let mut req = request("GET", "/a", vec![], b"");
    req.scheme = Some(s("http"));
    req.host = Some(s("example.org"));
    let r = echo_handler(&req, &s("box"));
    assert_eq!(r.protocol, "http");
    assert_eq!(r.hostname, "example.org");
    assert_eq!(r.os.hostname, "box");
}

#[test]
fn cookie_header_gives_pairs_in_order() {
    let req = request("GET", "/", vec![("cookie", b"a=1; b=2")], b"");
    let r = echo_handler(&req, &s("box"));
    assert_eq!(r.cookies, pairs(&[("a", "1"), ("b", "2")]));
}

#[test]
fn cookie_header_name_in_any_case() {
    let req = request("GET", "/", vec![("Cookie", b"a=1; b=2")], b"");
    let r = echo_handler(&req, &s("box"));
    assert_eq!(r.cookies, pairs(&[("a", "1"), ("b", "2")]));
}

#[test]
fn cookies_of_several_cookie_headers_follow_header_order() {
    let headers: Vec<(String, Vec<u8>)> = vec![
        (s("cookie"), b"z=9".to_vec()),
        (s("accept"), b"a=1".to_vec()),
        (s("cookie"), b"a=1".to_vec()),
    ];
    assert_eq!(request_cookies(&headers), pairs(&[("z", "9"), ("a", "1")]));
}

#[test]
fn pieces_that_are_no_cookie_are_left_out() {
    assert_eq!(cookies_of_header_text("a=1;junk;;=x; b = 2 "), pairs(&[("a", "1"), ("b", "2")]));
    assert!(cookies_of_header_text("").is_empty());
}

#[test]
fn cookie_values_are_percent_decoded() {
    assert_eq!(cookies_of_header_text("n=a%20b"), pairs(&[("n", "a b")]));
}

#[test]
fn cookie_header_that_is_not_text_gives_no_cookies() {
    let headers: Vec<(String, Vec<u8>)> = vec![(s("cookie"), vec![b'a', b'=', 0xc3, 0xa9])];
    assert!(request_cookies(&headers).is_empty());
}

#[test]
fn parsed_pieces_keep_only_cookies() {
    let parsed = vec![None, Some((s("a"), s("1"))), None, Some((s("b"), s("2")))];
    assert_eq!(cookies_from_parsed(&parsed), pairs(&[("a", "1"), ("b", "2")]));
    assert!(cookies_from_parsed(&vec![None, None]).is_empty());
}

#[test]
fn invalid_utf8_body_is_decoded_lossily() {
    let req = request("PUT", "/", vec![], &[b'o', 0xff, b'k', 0xc3]);
    let r = echo_handler(&req, &s("box"));
    assert_eq!(r.body, "o\u{FFFD}k\u{FFFD}");
}

#[test]
fn repeated_header_names_are_kept_in_order() {
    let req = request("GET", "/", vec![("x-dup", b"one"), ("accept", b"*/*"), ("x-dup", b"two")], b"");
    let r = echo_handler(&req, &s("box"));
    assert_eq!(r.headers, pairs(&[("x-dup", "one"), ("accept", "*/*"), ("x-dup", "two")]));
}

#[test]
fn header_value_that_is_not_visible_ascii_reads_empty() {
    assert_eq!(header_value_text(&vec![0xc3, 0xa9]), "");
    assert_eq!(header_value_text(&vec![b'a', 0x7f]), "");
    assert_eq!(header_value_text(&b"a\tb c".to_vec()), "a\tb c");
    let headers: Vec<(String, Vec<u8>)> = vec![(s("x-bin"), vec![0x01]), (s("x-ok"), b"v".to_vec())];
    assert_eq!(header_pairs(&headers), pairs(&[("x-bin", ""), ("x-ok", "v")]));
}

#[test]
fn os_hostname_is_the_same_for_every_request() {
    let host = s("server-1");
    let a = echo_handler(&request("GET", "/a", vec![("x", b"1")], b"one"), &host);
    let b = echo_handler(&request("POST", "/b", vec![], b"two"), &host);
    assert_eq!(a.os.hostname, "server-1");
    assert_eq!(a.os.hostname, b.os.hostname);
}

#[test]
fn each_record_describes_its_own_request() {
    let host = s("box");
    let ra = request("GET", "/a", vec![("cookie", b"k=a")], b"aaa");
    let rb = request("POST", "/b", vec![("cookie", b"k=b")], b"bbb");
    let a = echo_handler(&ra, &host);
    let b = echo_handler(&rb, &host);
    let a_again = echo_handler(&ra, &host);
    assert_eq!((a.path.as_str(), a.method.as_str(), a.body.as_str()), ("/a", "GET", "aaa"));
    assert_eq!((b.path.as_str(), b.method.as_str(), b.body.as_str()), ("/b", "POST", "bbb"));
    assert_eq!(a.cookies, pairs(&[("k", "a")]));
    assert_eq!(b.cookies, pairs(&[("k", "b")]));
    assert_eq!(a_again.cookies, a.cookies);
    assert_eq!(a_again.headers, a.headers);
}

#[test]
fn optional_text_of_absent_part_is_empty() {
    assert_eq!(optional_text(&None), "");
    assert_eq!(optional_text(&Some(s("q=1"))), "q=1");
}
