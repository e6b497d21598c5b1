//! The plaintext-side service of a secure deployment: every request is
//! answered with a permanent redirect to the same location on the secure
//! port.
use vstd::prelude::*;
use vstd::slice::slice_to_vec;
use vstd::string::StringSliceAdditionalSpecFns;

use crate::http::{
    append_bytes, headers_view, new_bad_req_resp, Header, HeaderView,
    MyService, Request, RequestView, Response, ResponseView, STATUS_BAD_REQUEST,
};

verus! {

pub const STATUS_MOVED_PERMANENTLY: u16 = 301;

/// The byte that separates a host from its port.
pub const COLON: u8 = 58;

/// The bytes that enclose an IPv6 literal host.
pub const OPEN_BRACKET: u8 = 91;

pub const CLOSE_BRACKET: u8 = 93;

/// The ASCII digit zero.
pub const DIGIT_ZERO: u8 = 48;

/// Header names are compared as the transport hands them over: lower case.
pub open spec fn host_name() -> Seq<u8> {
    "host".spec_bytes()
}

pub open spec fn location_name() -> Seq<u8> {
    "location".spec_bytes()
}

pub open spec fn missing_host_body() -> Seq<u8> {
    "missing Host header".spec_bytes()
}

/// The value of the first header named `host`, if there is one.
pub open spec fn host_of(hs: Seq<HeaderView>) -> Option<Seq<u8>>
    decreases hs.len(),
{
    if hs.len() == 0 {
        None
    } else if hs[0].0 == host_name() {
        Some(hs[0].1)
    } else {
        host_of(hs.drop_first())
    }
}

/// The bytes of `s` before the first `c` (all of `s` when there is none).
pub open spec fn before_byte(s: Seq<u8>, c: u8) -> Seq<u8>
    decreases s.len(),
{
    if s.len() == 0 {
        s
    } else if s[0] == c {
        Seq::empty()
    } else {
        seq![s[0]] + before_byte(s.drop_first(), c)
    }
}

/// The bytes of `s` up to and including the first `c` (all of `s` when
/// there is none).
pub open spec fn through_byte(s: Seq<u8>, c: u8) -> Seq<u8>
    decreases s.len(),
{
    if s.len() == 0 {
        s
    } else if s[0] == c {
        seq![c]
    } else {
        seq![s[0]] + through_byte(s.drop_first(), c)
    }
}

/// A Host value without its port: a bracketed IPv6 literal keeps
/// everything through its closing bracket; any other host ends before its
/// first colon.
pub open spec fn port_free_host(host: Seq<u8>) -> Seq<u8> {
    if host.len() > 0 && host[0] == OPEN_BRACKET {
        through_byte(host, CLOSE_BRACKET)
    } else {
        before_byte(host, COLON)
    }
}

/// The decimal digits of `n`, most significant first, no leading zeros.
pub open spec fn decimal(n: nat) -> Seq<u8>
    decreases n,
{
    if n < 10 {
        seq![(DIGIT_ZERO + n) as u8]
    } else {
        decimal(n / 10) + seq![(DIGIT_ZERO + n % 10) as u8]
    }
}

/// `https://<host without port>:<port><path>`.
pub open spec fn secure_location(host: Seq<u8>, port: u16, uri: Seq<u8>) -> Seq<u8> {
    "https://".spec_bytes() + port_free_host(host) + seq![COLON] + decimal(port as nat) + uri
}

/// The redirect answer to a request: 301 to the secure location when the
/// request names its host, else 400.
pub open spec fn redirect_for(port: u16, req: RequestView) -> ResponseView {
    match host_of(req.headers) {
        Some(host) => ResponseView {
            status: STATUS_MOVED_PERMANENTLY,
            headers: seq![(location_name(), secure_location(host, port, req.uri))],
            body: Seq::empty(),
        },
        None => ResponseView {
            status: STATUS_BAD_REQUEST,
            headers: Seq::empty(),
            body: missing_host_body(),
        },
    }
}

proof fn lemma_before_byte(s: Seq<u8>, c: u8, i: int)
    requires
        0 <= i <= s.len(),
        i == s.len() || s[i] == c,
        forall|j: int| 0 <= j < i ==> s[j] != c,
    ensures
        before_byte(s, c) == s.subrange(0, i),
    decreases s.len(),
{
    if s.len() == 0 {
        assert(s.subrange(0, i) =~= s);
    } else if s[0] == c {
        assert(s.subrange(0, i) =~= Seq::<u8>::empty());
    } else {
        lemma_before_byte(s.drop_first(), c, i - 1);
        assert(s.subrange(0, i) =~= seq![s[0]] + s.drop_first().subrange(0, i - 1));
    }
}

proof fn lemma_through_byte(s: Seq<u8>, c: u8, i: int)
    requires
        0 <= i <= s.len(),
        i == s.len() || s[i] == c,
        forall|j: int| 0 <= j < i ==> s[j] != c,
    ensures
        through_byte(s, c) == s.subrange(0, if i < s.len() { i + 1 } else { i }),
    decreases s.len(),
{
    if s.len() == 0 {
        assert(s.subrange(0, i) =~= s);
    } else if s[0] == c {
        assert(s.subrange(0, 1) =~= seq![c]);
    } else {
        lemma_through_byte(s.drop_first(), c, i - 1);
        let end = if i < s.len() { i + 1 } else { i };
        assert(s.subrange(0, end) =~= seq![s[0]] + s.drop_first().subrange(0, end - 1));
    }
}

/// The index of the first `c` in `s`, or its length when there is none.
fn first_index(s: &[u8], c: u8) -> (n: usize)
    ensures
        n <= s@.len(),
        n == s@.len() || s@[n as int] == c,
        forall|j: int| 0 <= j < n ==> s@[j] != c,
{
    let mut n: usize = 0;
    while n < s.len() && s[n] != c
        invariant
            n <= s@.len(),
            forall|j: int| 0 <= j < n ==> s@[j] != c,
        decreases s@.len() - n,
    {
        n = n + 1;
    }
    n
}

/// The length of the port-free prefix of a Host value.
fn port_free_len(host: &[u8]) -> (n: usize)
    ensures
        n <= host@.len(),
        port_free_host(host@) == host@.subrange(0, n as int),
{
    if host.len() > 0 && host[0] == OPEN_BRACKET {
        let i = first_index(host, CLOSE_BRACKET);
        proof {
            lemma_through_byte(host@, CLOSE_BRACKET, i as int);
        }
        if i < host.len() {
            i + 1
        } else {
            i
        }
    } else {
        let i = first_index(host, COLON);
        proof {
            lemma_before_byte(host@, COLON, i as int);
        }
        i
    }
}

fn bytes_equal(a: &[u8], b: &[u8]) -> (r: bool)
    ensures
        r == (a@ == b@),
{
    if a.len() != b.len() {
        return false;
    }
    let mut i: usize = 0;
    while i < a.len()
        invariant
            a@.len() == b@.len(),
            i <= a@.len(),
            forall|j: int| 0 <= j < i ==> a@[j] == b@[j],
        decreases a@.len() - i,
    {
        if a[i] != b[i] {
            return false;
        }
        i = i + 1;
    }
    assert(a@ =~= b@);
    true
}

/// The value of the first `host` header.
fn find_host(hs: &Vec<Header>) -> (r: Option<&Vec<u8>>)
    ensures
        match host_of(headers_view(*hs)) {
            Some(h) => r is Some && r->Some_0@ == h,
            None => r is None,
        },
{
    let ghost all = headers_view(*hs);
    let mut i: usize = 0;
    assert(all.subrange(0, all.len() as int) =~= all);
    while i < hs.len()
        invariant
            i <= hs@.len(),
            all == headers_view(*hs),
            host_of(all) == host_of(all.subrange(i as int, all.len() as int)),
        decreases hs@.len() - i,
    {
        let ghost rest = all.subrange(i as int, all.len() as int);
        assert(rest.drop_first() =~= all.subrange(i + 1, all.len() as int));
        if bytes_equal(hs[i].name.as_slice(), "host".as_bytes()) {
            return Some(&hs[i].value);
        }
        i = i + 1;
    }
    assert(all.subrange(i as int, all.len() as int) =~= Seq::<HeaderView>::empty());
    None
}

fn push_decimal(out: &mut Vec<u8>, n: u16)
    ensures
        final(out)@ == old(out)@ + decimal(n as nat),
    decreases n,
{
    if n >= 10 {
        push_decimal(out, n / 10);
    }
    out.push(DIGIT_ZERO + (n % 10) as u8);
    assert(final(out)@ =~= old(out)@ + decimal(n as nat));
}

/// Answers plaintext requests with a redirect to `https_port`.
#[derive(Clone, Copy, Debug)]
pub struct RedirectService {
    pub https_port: u16,
}

impl RedirectService {
    pub fn new(https_port: u16) -> (r: RedirectService)
        ensures
            r.https_port == https_port,
    {
        RedirectService { https_port }
    }
}

impl MyService for RedirectService {
    open spec fn response_for(&self, req: RequestView) -> ResponseView {
        redirect_for(self.https_port, req)
    }

    fn handle(&self, req: Request) -> (r: Response) {
        match find_host(&req.headers) {
            Some(host) => {
                let n = port_free_len(host.as_slice());
                let mut loc: Vec<u8> = slice_to_vec("https://".as_bytes());
                append_bytes(&mut loc, vstd::slice::slice_subrange(host.as_slice(), 0, n));
                loc.push(COLON);
                push_decimal(&mut loc, self.https_port);
                append_bytes(&mut loc, req.uri.as_slice());
                let ghost l = loc@;
                let mut headers: Vec<Header> = Vec::new();
                headers.push(Header { name: slice_to_vec("location".as_bytes()), value: loc });
                let r = Response { status: STATUS_MOVED_PERMANENTLY, headers, body: Vec::new() };
                assert(l =~= secure_location(host@, self.https_port, req.uri@));
                assert(headers_view(r.headers) =~= seq![(location_name(), l)]);
                assert(r.body@ =~= Seq::<u8>::empty());
                r
            },
            None => {
                let r = new_bad_req_resp(slice_to_vec("missing Host header".as_bytes()));
                r
            },
        }
    }
}

} // verus!
