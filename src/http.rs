//! Requests, responses, and the filter / handler composition.
use vstd::prelude::*;
use vstd::slice::slice_to_vec;
use vstd::string::StringSliceAdditionalSpecFns;

verus! {

pub const STATUS_BAD_REQUEST: u16 = 400;

pub const STATUS_NOT_FOUND: u16 = 404;

pub const STATUS_INTERNAL_SERVER_ERROR: u16 = 500;

/// One header line: a name and its raw value.
#[derive(Clone, Debug)]
pub struct Header {
    pub name: Vec<u8>,
    pub value: Vec<u8>,
}

/// An inbound request: method, path-and-query, headers and the whole body.
#[derive(Clone, Debug)]
pub struct Request {
    pub method: Vec<u8>,
    pub uri: Vec<u8>,
    pub headers: Vec<Header>,
    pub body: Vec<u8>,
}

/// An outbound response: status code, headers and body bytes.
#[derive(Clone, Debug)]
pub struct Response {
    pub status: u16,
    pub headers: Vec<Header>,
    pub body: Vec<u8>,
}

/// What a header is: its name and value bytes.
pub type HeaderView = (Seq<u8>, Seq<u8>);

/// What a request is, as plain sequences.
pub struct RequestView {
    pub method: Seq<u8>,
    pub uri: Seq<u8>,
    pub headers: Seq<HeaderView>,
    pub body: Seq<u8>,
}

/// What a response is, as plain sequences.
pub struct ResponseView {
    pub status: u16,
    pub headers: Seq<HeaderView>,
    pub body: Seq<u8>,
}

impl View for Header {
    type V = HeaderView;

    open spec fn view(&self) -> HeaderView {
        (self.name@, self.value@)
    }
}

pub open spec fn headers_view(hs: Vec<Header>) -> Seq<HeaderView> {
    hs@.map_values(|h: Header| h@)
}

impl View for Request {
    type V = RequestView;

    open spec fn view(&self) -> RequestView {
        RequestView {
            method: self.method@,
            uri: self.uri@,
            headers: headers_view(self.headers),
            body: self.body@,
        }
    }
}

impl View for Response {
    type V = ResponseView;

    open spec fn view(&self) -> ResponseView {
        ResponseView { status: self.status, headers: headers_view(self.headers), body: self.body@ }
    }
}

/// A response with `status`, no headers, and exactly `body`.
pub open spec fn plain_response(status: u16, body: Seq<u8>) -> ResponseView {
    ResponseView { status, headers: Seq::empty(), body }
}

/// `r` carries `status`, no headers, and exactly `body`.
pub open spec fn is_plain_response(r: Response, status: u16, body: Seq<u8>) -> bool {
    r@ == plain_response(status, body)
}

/// The body of a 400 answer to a body that could not be decoded.
pub open spec fn parse_failure_body(detail: Seq<u8>) -> Seq<u8> {
    "Failed to parse JSON: ".spec_bytes() + detail
}

/// Appends every byte of `src` to `dst`.
pub(crate) fn append_bytes(dst: &mut Vec<u8>, src: &[u8])
    ensures
        final(dst)@ == old(dst)@ + src@,
{
    let mut i: usize = 0;
    while i < src.len()
        invariant
            i <= src@.len(),
            dst@ == old(dst)@ + src@.subrange(0, i as int),
        decreases src@.len() - i,
    {
        dst.push(src[i]);
        i = i + 1;
        assert(src@.subrange(0, i as int) == src@.subrange(0, i - 1) + seq![src@[i - 1]]);
    }
    assert(src@.subrange(0, src@.len() as int) == src@);
}

/// A response with `status` and `msg` as its plain-text body.
pub fn new_msg_resp(status: u16, msg: &str) -> (r: Response)
    ensures
        is_plain_response(r, status, msg.spec_bytes()),
{
    let r = Response { status, headers: Vec::new(), body: slice_to_vec(msg.as_bytes()) };
    assert(headers_view(r.headers) =~= Seq::empty());
    r
}

/// A response with `status` and an empty body.
pub fn new_empty_resp(status: u16) -> (r: Response)
    ensures
        is_plain_response(r, status, Seq::empty()),
{
    let r = Response { status, headers: Vec::new(), body: Vec::new() };
    assert(headers_view(r.headers) =~= Seq::empty());
    assert(r.body@ =~= Seq::empty());
    r
}

/// A 400 response whose body is `msg`.
pub fn new_bad_req_resp(msg: Vec<u8>) -> (r: Response)
    ensures
        is_plain_response(r, STATUS_BAD_REQUEST, msg@),
{
    let r = Response { status: STATUS_BAD_REQUEST, headers: Vec::new(), body: msg };
    assert(headers_view(r.headers) =~= Seq::empty());
    r
}

/// The outcome of a filter: a final response, or permission to go on.
#[derive(Clone, Debug)]
pub enum FilterResult {
    Halt(Response),
    Continue,
}

impl View for FilterResult {
    /// `Some` of the final response, or `None` to go on.
    type V = Option<ResponseView>;

    open spec fn view(&self) -> Option<ResponseView> {
        match self {
            FilterResult::Halt(resp) => Some(resp@),
            FilterResult::Continue => None,
        }
    }
}

/// A synchronous gate in front of a handler. It inspects a request without
/// taking it, and either answers it or lets it through.
pub trait Filter {
    /// What this filter decides for `req`.
    spec fn verdict(&self, req: RequestView) -> Option<ResponseView>;

    fn filter(&self, req: &Request) -> (r: FilterResult)
        ensures
            r@ == self.verdict(req@),
    ;
}

/// The unit that turns a request into a response.
pub trait Handler {
    /// The response this handler gives to `req`.
    spec fn response_for(&self, req: RequestView) -> ResponseView;

    fn handle(&self, req: Request) -> (r: Response)
        ensures
            r@ == self.response_for(req@),
    ;

    /// A response with any status and a plain-text message.
    fn respond_with(&self, status: u16, msg: &str) -> (r: Response)
        ensures
            is_plain_response(r, status, msg.spec_bytes()),
    {
        new_msg_resp(status, msg)
    }

    /// The answer to an internal failure: a bare 500 that tells the caller
    /// nothing of `err`.
    fn respond_error(&self, err: &str) -> (r: Response)
        ensures
            is_plain_response(r, STATUS_INTERNAL_SERVER_ERROR, Seq::empty()),
    {
        new_empty_resp(STATUS_INTERNAL_SERVER_ERROR)
    }
}

/// A top-level service bound to a listener.
pub trait MyService {
    /// The response this service gives to `req`.
    spec fn response_for(&self, req: RequestView) -> ResponseView;

    fn handle(&self, req: Request) -> (r: Response)
        ensures
            r@ == self.response_for(req@),
    ;
}

/// One filter guarding one handler; both owned, neither changed after
/// construction.
pub struct FilteredHandler<F: Filter, H: Handler> {
    filter: F,
    handler: H,
}

impl<F: Filter, H: Handler> FilteredHandler<F, H> {
    /// The guarding filter.
    pub closed spec fn gate(&self) -> F {
        self.filter
    }

    /// The guarded handler.
    pub closed spec fn inner(&self) -> H {
        self.handler
    }

    pub fn new(filter: F, handler: H) -> (r: Box<FilteredHandler<F, H>>)
        ensures
            r.gate() == filter,
            r.inner() == handler,
    {
        Box::new(FilteredHandler { filter, handler })
    }
}

impl<F: Filter, H: Handler> Handler for FilteredHandler<F, H> {
    open spec fn response_for(&self, req: RequestView) -> ResponseView {
        match self.gate().verdict(req) {
            Some(resp) => resp,
            None => self.inner().response_for(req),
        }
    }

    /// Asks the filter first; a halt is the answer and the handler never
    /// sees the request, otherwise the handler gets it unchanged.
    fn handle(&self, req: Request) -> (r: Response) {
        match self.filter.filter(&req) {
            FilterResult::Halt(resp) => resp,
            FilterResult::Continue => self.handler.handle(req),
        }
    }
}

/// A filtered handler answers with the filter's own response whenever the
/// filter halts, and with exactly its handler's response, for the same
/// request, whenever the filter lets it through.
pub proof fn lemma_filtered_response<F: Filter, H: Handler>(fh: FilteredHandler<F, H>, req: RequestView)
    ensures
        fh.gate().verdict(req) is Some ==> fh.response_for(req) == fh.gate().verdict(req)->Some_0,
        fh.gate().verdict(req) is None ==> fh.response_for(req) == fh.inner().response_for(req),
{
}

/// The fallback handler: 404 with an empty body, whatever the request.
pub struct NotFoundHandler;

impl Handler for NotFoundHandler {
    open spec fn response_for(&self, req: RequestView) -> ResponseView {
        plain_response(STATUS_NOT_FOUND, Seq::empty())
    }

    fn handle(&self, req: Request) -> (r: Response) {
        new_empty_resp(STATUS_NOT_FOUND)
    }
}

/// The fallback answer is a bare 404 for every request, however malformed.
pub proof fn lemma_not_found_for_every_request(req: RequestView)
    ensures
        NotFoundHandler.response_for(req) == plain_response(STATUS_NOT_FOUND, Seq::empty()),
{
}

/// Finishes a JSON request from the outcome of decoding its body: the
/// decoded value goes to `func`, whose response is returned as it is; a
/// decoding failure becomes a 400 that names it, and `func` is not called.
pub fn parse_json<T, F: FnOnce(T) -> Response>(decoded: Result<T, Vec<u8>>, func: F) -> (r: Response)
    requires
        decoded is Ok ==> func.requires((decoded->Ok_0,)),
    ensures
        decoded is Ok ==> func.ensures((decoded->Ok_0,), r),
        decoded is Err ==> is_plain_response(r, STATUS_BAD_REQUEST, parse_failure_body(decoded->Err_0@)),
{
    match decoded {
        Ok(obj) => func(obj),
        Err(detail) => {
            let mut msg: Vec<u8> = slice_to_vec("Failed to parse JSON: ".as_bytes());
            append_bytes(&mut msg, detail.as_slice());
            new_bad_req_resp(msg)
        },
    }
}

} // verus!
