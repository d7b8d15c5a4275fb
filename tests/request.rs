use reqwest_bridge::header::get_header;
use reqwest_bridge::{
    ActixWebRequestWrapper, ConversionError, DestinationError, Header, InboundRequest,
    OutboundRequest, RequestWrapper, Url,
};

fn b(s: &str) -> Vec<u8> {
    s.as_bytes().to_vec()
}

fn url(scheme: &str, host: &str, port: Option<u16>, path: &str, query: Option<&str>) -> Url {
    Url {
        scheme: b(scheme),
        host: b(host),
        port,
        path: b(path),
        query: query.map(b),
        fragment: None,
    }
}

fn inbound(method: &str, u: Url, headers: Vec<(&str, &str)>, body: &str) -> ActixWebRequestWrapper {
    let headers = headers.into_iter().map(|(n, v)| Header::new(b(n), b(v))).collect();
    ActixWebRequestWrapper::new(InboundRequest { method: b(method), url: u, headers }, b(body))
}

#[test]
fn test_new() {
    let wrapper = inbound(
        "GET",
        url("http", "localhost", None, "/", None),
        vec![("Content-Type", "application/json")],
        "test",
    );
    assert_eq!(wrapper.req.method, b("GET"));
    assert_eq!(wrapper.req.url.path, b("/"));
    assert_eq!(wrapper.body, b("test"));
    assert_eq!(get_header(&wrapper.req.headers, &b("Content-Type")), Some(&b("application/json")));
}

#[test]
fn test_change_url() {
    let mut wrapper = RequestWrapper {
        request: OutboundRequest {
            method: b("GET"),
            url: url("http", "example.com", Some(8080), "/", None),
            headers: Vec::new(),
            body: None,
        },
    };
    assert_eq!(wrapper.request.url.port, Some(8080));
    let new_url = url("https", "new-example.com", None, "/", None);
    assert_eq!(wrapper.change_url(new_url), Ok(()));
    assert_eq!(wrapper.request.url.scheme, b("https"));
    assert_eq!(wrapper.request.url.host, b("new-example.com"));
    assert_eq!(wrapper.request.url.port, None);
    assert_eq!(get_header(&wrapper.request.headers, &b("host")), Some(&b("new-example.com")));
}

#[test]
fn test_from_actix_web_request_wrapper_with_headers() {
    let actix_wrapper = inbound(
        "POST",
        url("http", "localhost", None, "/", None),
        vec![("Content-Type", "application/json")],
        "test",
    );
    let request_wrapper = RequestWrapper::translate(actix_wrapper).unwrap();
    assert_eq!(request_wrapper.request.method, b("POST"));
    assert_eq!(request_wrapper.request.url.path, b("/"));
    assert_eq!(request_wrapper.request.body, Some(b("test")));
    assert_eq!(
        get_header(&request_wrapper.request.headers, &b("Content-Type")),
        Some(&b("application/json"))
    );
}

#[test]
fn translate_keeps_everything() {
    let u = url("http", "a.example", Some(81), "/p/q", Some("a=1&b=2"));
    let w = inbound(
        "PATCH",
        u.clone(),
        vec![("Accept", "*/*"), ("X-Dup", "1"), ("x-dup", "2"), ("X-Dup", "1")],
        "payload",
    );
    let headers = w.req.headers.clone();
    let r = RequestWrapper::translate(w).unwrap();
    assert_eq!(r.request.method, b("PATCH"));
    assert_eq!(r.request.url, u);
    assert_eq!(r.request.headers, headers);
    assert_eq!(r.request.headers.len(), 4);
    assert_eq!(r.request.body, Some(b("payload")));
}

#[test]
fn translate_rejects_bad_method() {
    let w = inbound("GE T", url("http", "a", None, "/", None), vec![], "");
    assert_eq!(RequestWrapper::translate(w).unwrap_err(), ConversionError::InvalidMethod);
    let w = inbound("", url("http", "a", None, "/", None), vec![], "");
    assert_eq!(RequestWrapper::translate(w).unwrap_err(), ConversionError::InvalidMethod);
}

#[test]
fn translate_rejects_bad_header() {
    let w = inbound(
        "GET",
        url("http", "a", None, "/", None),
        vec![("Accept", "*/*"), ("Bad Name", "x"), ("X-Ctl", "a\u{1}b")],
        "",
    );
    assert_eq!(
        RequestWrapper::translate(w).unwrap_err(),
        ConversionError::InvalidHeader { index: 1 }
    );
    let w = inbound("GET", url("http", "a", None, "/", None), vec![("X-Ctl", "a\u{7f}b")], "");
    assert_eq!(
        RequestWrapper::translate(w).unwrap_err(),
        ConversionError::InvalidHeader { index: 0 }
    );
}

#[test]
fn rewrite_scenario() {
    let w = inbound(
        "GET",
        url("http", "a.example", None, "/x", Some("q=1")),
        vec![("Accept", "*/*")],
        "",
    );
    let mut r = RequestWrapper::translate(w).unwrap();
    assert_eq!(r.change_url(url("http", "b.example", Some(8080), "/", None)), Ok(()));
    assert_eq!(r.request.url, url("http", "b.example", Some(8080), "/x", Some("q=1")));
    assert_eq!(get_header(&r.request.headers, &b("Host")), Some(&b("b.example")));
    assert_eq!(get_header(&r.request.headers, &b("accept")), Some(&b("*/*")));
    assert_eq!(r.request.method, b("GET"));
}

#[test]
fn rewrite_replaces_every_host_header() {
    let w = inbound(
        "POST",
        url("http", "a.example", None, "/x", None),
        vec![("Host", "a.example"), ("X-A", "1"), ("HOST", "other"), ("X-B", "2")],
        "body",
    );
    let mut r = RequestWrapper::translate(w).unwrap();
    assert_eq!(r.change_url(url("https", "c.example", None, "/ignored", Some("z"))), Ok(()));
    let expected = vec![
        Header::new(b("X-A"), b("1")),
        Header::new(b("X-B"), b("2")),
        Header::new(b("host"), b("c.example")),
    ];
    assert_eq!(r.request.headers, expected);
    assert_eq!(r.request.url, url("https", "c.example", None, "/x", None));
    assert_eq!(r.request.body, Some(b("body")));
}

#[test]
fn rewrite_rejects_bad_destination() {
    let w = inbound("GET", url("http", "a.example", None, "/x", None), vec![("X", "1")], "");
    let mut r = RequestWrapper::translate(w).unwrap();
    assert_eq!(r.change_url(url("", "b", None, "/", None)), Err(DestinationError::InvalidScheme));
    assert_eq!(r.change_url(url("1http", "b", None, "/", None)), Err(DestinationError::InvalidScheme));
    assert_eq!(r.change_url(url("http", "", None, "/", None)), Err(DestinationError::InvalidHost));
    assert_eq!(r.change_url(url("http", "b/c", None, "/", None)), Err(DestinationError::InvalidHost));
    assert_eq!(r.change_url(url("http", "a@b", None, "/", None)), Err(DestinationError::InvalidHost));
    assert_eq!(r.request.url, url("http", "a.example", None, "/x", None));
    assert_eq!(r.request.headers, vec![Header::new(b("X"), b("1"))]);
}
