use dispatch_core::http::{Header, MyService, Request};
use dispatch_core::redirect::RedirectService;

fn request(uri: &str, headers: &[(&str, &str)]) -> Request {
    Request {
        method: b"GET".to_vec(),
        uri: uri.as_bytes().to_vec(),
        headers: headers
            .iter()
            .map(|(n, v)| Header { name: n.as_bytes().to_vec(), value: v.as_bytes().to_vec() })
            .collect(),
        body: Vec::new(),
    }
}

fn location(r: &dispatch_core::http::Response) -> String {
    assert_eq!(r.headers.len(), 1);
    assert_eq!(r.headers[0].name, b"location".to_vec());
    String::from_utf8(r.headers[0].value.clone()).unwrap()
}

#[test]
fn redirect_drops_plain_port_and_keeps_path() {
    let s = RedirectService::new(3001);
    let r = s.handle(request("/ui/login?next=%2F", &[("accept", "*/*"), ("host", "example.com:3000")]));
    assert_eq!(r.status, 301);
    assert!(r.body.is_empty());
    assert_eq!(location(&r), "https://example.com:3001/ui/login?next=%2F");
}

#[test]
fn redirect_host_without_port() {
    let r = RedirectService::new(443).handle(request("/", &[("host", "octo.example")]));
    assert_eq!(r.status, 301);
    assert_eq!(location(&r), "https://octo.example:443/");
}

#[test]
fn redirect_port_extremes() {
    let zero = RedirectService::new(0).handle(request("/a", &[("host", "h")]));
    assert_eq!(location(&zero), "https://h:0/a");
    let max = RedirectService::new(65535).handle(request("/a", &[("host", "h:1")]));
    assert_eq!(location(&max), "https://h:65535/a");
    let ten = RedirectService::new(10).handle(request("", &[("host", "h")]));
    assert_eq!(location(&ten), "https://h:10");
}

#[test]
fn redirect_uses_first_host_header() {
    let r = RedirectService::new(8443).handle(request("/x", &[("host", "first:1"), ("host", "second:2")]));
    assert_eq!(location(&r), "https://first:8443/x");
}

#[test]
fn redirect_without_host_is_bad_request() {
    let r = RedirectService::new(3001).handle(request("/x", &[("hostname", "a")]));
    assert_eq!(r.status, 400);
    assert!(r.headers.is_empty());
    assert_eq!(r.body, b"missing Host header".to_vec());
}

#[test]
fn redirect_ipv6_literal_keeps_brackets() {
    let s = RedirectService::new(3001);
    let r = s.handle(request("/x?y", &[("host", "[::1]:3000")]));
    assert_eq!(r.status, 301);
    assert_eq!(location(&r), "https://[::1]:3001/x?y");
    let bare = s.handle(request("/", &[("host", "[fe80::2]")]));
    assert_eq!(location(&bare), "https://[fe80::2]:3001/");
    let unclosed = s.handle(request("/", &[("host", "[::1")]));
    assert_eq!(location(&unclosed), "https://[::1:3001/");
}
