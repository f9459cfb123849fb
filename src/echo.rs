//! The echo handler: one inbound request in, the record that describes it out.
use vstd::prelude::*;
use crate::text::{header_text_of, header_value_text, lossy_text, utf8_lossy_of};
use crate::cookies::{request_cookies, request_cookies_of};

verus! {

/// An inbound HTTP request, as the handler reads it.
///
/// Header names come as the server hands them over (the HTTP stack in use
/// writes them in lower case); header values and the body are raw bytes.
pub struct EchoRequest {
    /// The method token, such as `GET` or `POST`.
    pub method: String,
    /// The path of the request URI.
    pub path: String,
    /// The scheme of the request URI, where it has one.
    pub scheme: Option<String>,
    /// The host of the request URI, where it has one.
    pub host: Option<String>,
    /// The query of the request URI without its `?`, where it has one.
    pub query: Option<String>,
    /// Every header, in the order received; a repeated name stands once per value.
    pub headers: Vec<(String, Vec<u8>)>,
    /// The raw body.
    pub body: Vec<u8>,
    /// The client address as text, once the trusted-proxy rules have resolved it.
    pub ip: String,
}

/// What an [`EchoRequest`] holds, as mathematical values.
pub ghost struct EchoRequestView {
    pub method: Seq<char>,
    pub path: Seq<char>,
    pub scheme: Option<Seq<char>>,
    pub host: Option<Seq<char>>,
    pub query: Option<Seq<char>>,
    pub headers: Seq<(Seq<char>, Seq<u8>)>,
    pub body: Seq<u8>,
    pub ip: Seq<char>,
}

impl View for EchoRequest {
    type V = EchoRequestView;

    open spec fn view(&self) -> EchoRequestView {
        EchoRequestView {
            method: self.method@,
            path: self.path@,
            scheme: self.scheme.deep_view(),
            host: self.host.deep_view(),
            query: self.query.deep_view(),
            headers: self.headers.deep_view(),
            body: self.body@,
            ip: self.ip@,
        }
    }
}

/// Facts about the serving machine.
pub struct OsInfo {
    /// The host name of the machine that serves the request.
    pub hostname: String,
}

/// The record that describes one request. Every field always holds a value,
/// the empty string where the request lacks the part.
pub struct EchoResponse {
    pub path: String,
    pub headers: Vec<(String, String)>,
    pub method: String,
    pub body: String,
    pub cookies: Vec<(String, String)>,
    /// The host of the request URI; empty for a request line with a bare path.
    pub hostname: String,
    pub ip: String,
    /// The scheme of the request URI.
    pub protocol: String,
    pub query: String,
    pub os: OsInfo,
}

/// What an [`EchoResponse`] holds, as mathematical values.
pub ghost struct EchoRecord {
    pub path: Seq<char>,
    pub headers: Seq<(Seq<char>, Seq<char>)>,
    pub method: Seq<char>,
    pub body: Seq<char>,
    pub cookies: Seq<(Seq<char>, Seq<char>)>,
    pub hostname: Seq<char>,
    pub ip: Seq<char>,
    pub protocol: Seq<char>,
    pub query: Seq<char>,
    pub os_hostname: Seq<char>,
}

impl View for EchoResponse {
    type V = EchoRecord;

    open spec fn view(&self) -> EchoRecord {
        EchoRecord {
            path: self.path@,
            headers: self.headers.deep_view(),
            method: self.method@,
            body: self.body@,
            cookies: self.cookies.deep_view(),
            hostname: self.hostname@,
            ip: self.ip@,
            protocol: self.protocol@,
            query: self.query@,
            os_hostname: self.os.hostname@,
        }
    }
}

/// The text of an optional part, the empty string where it is absent.
pub open spec fn text_or_empty(o: Option<Seq<char>>) -> Seq<char> {
    match o {
        Some(t) => t,
        None => Seq::empty(),
    }
}

/// Each header as a (name, text) pair, in the order received.
pub open spec fn header_pairs_of(hs: Seq<(Seq<char>, Seq<u8>)>) -> Seq<(Seq<char>, Seq<char>)> {
    hs.map_values(|h: (Seq<char>, Seq<u8>)| (h.0, header_text_of(h.1)))
}

/// The record for request `req`, given its decoded body and its cookies, on a
/// machine named `os_hostname`.
pub open spec fn record_with(
    req: EchoRequestView,
    body: Seq<char>,
    cookies: Seq<(Seq<char>, Seq<char>)>,
    os_hostname: Seq<char>,
) -> EchoRecord {
    EchoRecord {
        path: req.path,
        headers: header_pairs_of(req.headers),
        method: req.method,
        body,
        cookies,
        hostname: text_or_empty(req.host),
        ip: req.ip,
        protocol: text_or_empty(req.scheme),
        query: text_or_empty(req.query),
        os_hostname,
    }
}

/// The record that describes request `req` on a machine named `os_hostname`.
pub open spec fn echo_record(req: EchoRequestView, os_hostname: Seq<char>) -> EchoRecord {
    record_with(req, utf8_lossy_of(req.body), request_cookies_of(req.headers), os_hostname)
}

/// The text of an optional part, or the empty string where it is absent.
pub fn optional_text(o: &Option<String>) -> (r: String)
    ensures
        r@ == text_or_empty(o.deep_view()),
{
    match o {
        Some(t) => t.clone(),
        None => String::new(),
    }
}

/// Every header as a (name, text) pair, in the order received, repeated names
/// included; a value that is not visible ASCII reads as the empty string.
pub fn header_pairs(headers: &Vec<(String, Vec<u8>)>) -> (r: Vec<(String, String)>)
    ensures
        r.deep_view() == header_pairs_of(headers.deep_view()),
{
    let mut out: Vec<(String, String)> = Vec::new();
    let mut i: usize = 0;
    while i < headers.len()
        invariant
            i <= headers@.len(),
            out.deep_view() == header_pairs_of(headers.deep_view().take(i as int)),
        decreases headers@.len() - i,
    {
        let text = header_value_text(&headers[i].1);
        let name = headers[i].0.clone();
        let ghost before = out.deep_view();
        let ghost pair = (name@, text@);
        out.push((name, text));
        proof {
            assert(headers@[i as int].1.deep_view() =~= headers@[i as int].1@);
            assert(out.deep_view() =~= before.push(pair));
            assert(header_pairs_of(headers.deep_view().take(i + 1))
                =~= header_pairs_of(headers.deep_view().take(i as int)).push(pair));
        }
        i = i + 1;
    }
    proof {
        assert(headers.deep_view().take(i as int) =~= headers.deep_view());
    }
    out
}

/// Builds the record for `req` from its decoded body and its cookies, on a
/// machine named `os_hostname`.
pub fn assemble_response(
    req: &EchoRequest,
    body: String,
    cookies: Vec<(String, String)>,
    os_hostname: &String,
) -> (r: EchoResponse)
    ensures
        r@ == record_with(req@, body@, cookies.deep_view(), os_hostname@),
{
    EchoResponse {
        path: req.path.clone(),
        headers: header_pairs(&req.headers),
        method: req.method.clone(),
        body,
        cookies,
        hostname: optional_text(&req.host),
        ip: req.ip.clone(),
        protocol: optional_text(&req.scheme),
        query: optional_text(&req.query),
        os: OsInfo { hostname: os_hostname.clone() },
    }
}

/// Describes `req`, served on a machine named `os_hostname`. It never fails:
/// each absent part reads as the empty string, and the body is decoded lossily.
pub fn echo_handler(req: &EchoRequest, os_hostname: &String) -> (r: EchoResponse)
    ensures
        r@ == echo_record(req@, os_hostname@),
{
    let body = lossy_text(&req.body);
    let cookies = request_cookies(&req.headers);
    assemble_response(req, body, cookies, os_hostname)
}

/// Every field of the record has a value whatever the request: the host,
/// scheme and query read as the empty string where the URI lacks them, and
/// there is one header pair per header received.
pub proof fn lemma_every_field_defined(req: EchoRequestView, os_hostname: Seq<char>)
    ensures
        req.host is None ==> echo_record(req, os_hostname).hostname.len() == 0,
        req.scheme is None ==> echo_record(req, os_hostname).protocol.len() == 0,
        req.query is None ==> echo_record(req, os_hostname).query.len() == 0,
        req.host is Some ==> echo_record(req, os_hostname).hostname == req.host->Some_0,
        req.scheme is Some ==> echo_record(req, os_hostname).protocol == req.scheme->Some_0,
        req.query is Some ==> echo_record(req, os_hostname).query == req.query->Some_0,
        echo_record(req, os_hostname).headers.len() == req.headers.len(),
{
}

/// A header name received twice with different values gives two pairs in the
/// record, at the places where the two headers came and in the same order:
/// neither is dropped, merged or overwritten.
pub proof fn lemma_repeated_headers_kept(req: EchoRequestView, os_hostname: Seq<char>, i: int, j: int)
    requires
        0 <= i < j < req.headers.len(),
        req.headers[i].0 == req.headers[j].0,
    ensures
        echo_record(req, os_hostname).headers.len() == req.headers.len(),
        echo_record(req, os_hostname).headers[i] == (req.headers[i].0, header_text_of(req.headers[i].1)),
        echo_record(req, os_hostname).headers[j] == (req.headers[j].0, header_text_of(req.headers[j].1)),
{
}

/// Every request served with the same machine name reports the same
/// `os.hostname`, whatever the request holds.
pub proof fn lemma_os_hostname_shared(a: EchoRequestView, b: EchoRequestView, os_hostname: Seq<char>)
    ensures
        echo_record(a, os_hostname).os_hostname == echo_record(b, os_hostname).os_hostname,
        echo_record(a, os_hostname).os_hostname == os_hostname,
{
}

/// The record of a request is made from that request and the machine name
/// alone: its fields are the request's own parts, and two requests that carry
/// the same data get the same record, whatever other request is served.
pub proof fn lemma_record_from_own_request(a: EchoRequestView, b: EchoRequestView, os_hostname: Seq<char>)
    ensures
        echo_record(a, os_hostname).path == a.path,
        echo_record(a, os_hostname).method == a.method,
        echo_record(a, os_hostname).ip == a.ip,
        echo_record(a, os_hostname).body == utf8_lossy_of(a.body),
        echo_record(a, os_hostname).headers == header_pairs_of(a.headers),
        echo_record(a, os_hostname).cookies == request_cookies_of(a.headers),
        a == b ==> echo_record(a, os_hostname) == echo_record(b, os_hostname),
{
}

} // verus!
