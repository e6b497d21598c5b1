//! Startup decisions: worker count, bind addresses, the TLS identity, and
//! which listener serves which service; and what becomes of each TLS
//! handshake on the secure listener.
use vstd::prelude::*;
use vstd::string::StringSliceAdditionalSpecFns;

use crate::http::{MyService, RequestView};
use crate::redirect::{host_of, location_name, secure_location, RedirectService, STATUS_MOVED_PERMANENTLY};

verus! {

/// Worker threads when the configuration names no count.
pub const DEFAULT_HTTP_THREADS: usize = 20;

/// The fewest worker threads the runtime is given.
pub const MIN_HTTP_THREADS: usize = 2;

#[verifier::external_type_specification]
#[verifier::external_body]
pub struct ExIdentity(native_tls::Identity);

#[verifier::external_type_specification]
#[verifier::external_body]
pub struct ExTlsAcceptor(native_tls::TlsAcceptor);

#[verifier::external_type_specification]
#[verifier::external_body]
pub struct ExTlsError(native_tls::Error);

/// The passphrase has no NUL byte, so it can be handed over as a C string.
pub open spec fn nul_free(pass: Seq<u8>) -> bool {
    forall|i: int| 0 <= i < pass.len() ==> pass[i] != 0
}

/// Relies on native_tls::Identity::from_pkcs12: decodes a DER-encoded
/// PKCS #12 archive, opened with `pass`, into a certificate and key. The
/// passphrase becomes a C string there, which panics on a NUL byte.
#[verifier::external_body]
fn identity_from_pkcs12(der: &[u8], pass: &str) -> (r: Result<native_tls::Identity, native_tls::Error>)
    requires
        nul_free(pass.spec_bytes()),
{
    native_tls::Identity::from_pkcs12(der, pass)
}

/// Relies on native_tls::TlsAcceptor::new: a server-side TLS context with
/// the default settings for `identity`.
#[verifier::external_body]
fn acceptor_for(identity: native_tls::Identity) -> (r: Result<native_tls::TlsAcceptor, native_tls::Error>) {
    native_tls::TlsAcceptor::new(identity)
}

/// The server's startup settings.
#[derive(Clone, Debug)]
pub struct ServerConfig {
    pub listen_addr: Option<String>,
    pub listen_addr_ssl: Option<String>,
    pub ssl_pkcs12_file: Option<String>,
    pub ssl_pkcs12_pass: Option<String>,
    pub num_http_threads: Option<usize>,
}

/// Why the server cannot start.
#[derive(Clone, Copy, Debug, PartialEq, Eq, Structural)]
pub enum StartupError {
    /// The PKCS #12 file could not be decoded with the given passphrase.
    InvalidIdentity,
    /// The decoded identity could not be made into a TLS context.
    AcceptorSetup,
}

/// The service a listener hands its requests to.
#[derive(Clone, Copy, Debug, PartialEq, Eq, Structural)]
pub enum ServiceKind {
    /// The application's own service.
    Main,
    /// The redirect to the secure endpoint on `https_port`.
    Redirect { https_port: u16 },
}

/// One socket to bind: its address, whether connections on it are TLS, and
/// what serves them.
#[derive(Clone, Debug)]
pub struct Listener {
    pub addr: String,
    pub tls: bool,
    pub service: ServiceKind,
}

pub struct ListenerView {
    pub addr: Seq<char>,
    pub tls: bool,
    pub service: ServiceKind,
}

impl View for Listener {
    type V = ListenerView;

    open spec fn view(&self) -> ListenerView {
        ListenerView { addr: self.addr@, tls: self.tls, service: self.service }
    }
}

/// What startup settled on: the TLS context, if any, and the sockets to
/// bind.
pub struct Startup {
    pub acceptor: Option<native_tls::TlsAcceptor>,
    pub listeners: Vec<Listener>,
}

pub open spec fn thread_count(requested: Option<usize>) -> usize {
    let n = requested.unwrap_or(DEFAULT_HTTP_THREADS);
    if n < MIN_HTTP_THREADS { MIN_HTTP_THREADS } else { n }
}

pub open spec fn default_http_addr() -> Seq<char> {
    "0.0.0.0:3000"@
}

pub open spec fn default_https_addr() -> Seq<char> {
    "0.0.0.0:3001"@
}

/// The configured address, or `default`.
pub open spec fn addr_or(configured: Option<String>, default: Seq<char>) -> Seq<char> {
    match configured {
        Some(a) => a@,
        None => default,
    }
}

pub open spec fn http_addr_of(cfg: ServerConfig) -> Seq<char> {
    addr_or(cfg.listen_addr, default_http_addr())
}

pub open spec fn https_addr_of(cfg: ServerConfig) -> Seq<char> {
    addr_or(cfg.listen_addr_ssl, default_https_addr())
}

/// The passphrase of the PKCS #12 file: empty when none is configured.
pub open spec fn pass_of(cfg: ServerConfig) -> Seq<char> {
    addr_or(cfg.ssl_pkcs12_pass, Seq::empty())
}

/// The sockets of each mode. Secure: the main service behind TLS on the
/// secure address and the redirect on the plain one. Otherwise: the main
/// service on the plain address alone.
pub open spec fn listener_plan(secure: bool, http: Seq<char>, https: Seq<char>, https_port: u16) -> Seq<ListenerView> {
    if secure {
        seq![
            ListenerView { addr: https, tls: true, service: ServiceKind::Main },
            ListenerView { addr: http, tls: false, service: ServiceKind::Redirect { https_port } },
        ]
    } else {
        seq![ListenerView { addr: http, tls: false, service: ServiceKind::Main }]
    }
}

/// Worker threads for the runtime: the requested count, 20 when none is
/// given, and never fewer than 2.
pub fn http_thread_count(requested: Option<usize>) -> (r: usize)
    ensures
        r == thread_count(requested),
{
    let n = match requested {
        Some(n) => n,
        None => DEFAULT_HTTP_THREADS,
    };
    if n < MIN_HTTP_THREADS {
        MIN_HTTP_THREADS
    } else {
        n
    }
}

fn configured_or(configured: &Option<String>, default: &str) -> (r: String)
    ensures
        r@ == addr_or(*configured, default@),
{
    match configured {
        Some(a) => a.clone(),
        None => default.to_owned(),
    }
}

/// The plain address: configured, or `0.0.0.0:3000`.
pub fn http_listen_addr(cfg: &ServerConfig) -> (r: String)
    ensures
        r@ == http_addr_of(*cfg),
{
    configured_or(&cfg.listen_addr, "0.0.0.0:3000")
}

/// The secure address: configured, or `0.0.0.0:3001`.
pub fn https_listen_addr(cfg: &ServerConfig) -> (r: String)
    ensures
        r@ == https_addr_of(*cfg),
{
    configured_or(&cfg.listen_addr_ssl, "0.0.0.0:3001")
}

/// The passphrase for the PKCS #12 file, empty when none is configured.
pub fn pkcs12_pass(cfg: &ServerConfig) -> (r: String)
    ensures
        r@ == pass_of(*cfg),
{
    proof {
        reveal_strlit("");
    }
    configured_or(&cfg.ssl_pkcs12_pass, "")
}

/// The sockets to bind in secure or plain mode.
pub fn plan_listeners(secure: bool, http_addr: &String, https_addr: &String, https_port: u16) -> (r: Vec<Listener>)
    ensures
        r@.map_values(|l: Listener| l@) == listener_plan(secure, http_addr@, https_addr@, https_port),
{
    let mut r: Vec<Listener> = Vec::new();
    if secure {
        r.push(Listener { addr: https_addr.clone(), tls: true, service: ServiceKind::Main });
        r.push(Listener { addr: http_addr.clone(), tls: false, service: ServiceKind::Redirect { https_port } });
    } else {
        r.push(Listener { addr: http_addr.clone(), tls: false, service: ServiceKind::Main });
    }
    assert(r@.map_values(|l: Listener| l@) =~= listener_plan(secure, http_addr@, https_addr@, https_port));
    r
}

/// Decodes the identity in `der` and makes the TLS context from it. A
/// passphrase with a NUL byte opens no archive: it is refused before
/// decoding.
pub fn tls_acceptor(der: &[u8], pass: &str) -> (r: Result<native_tls::TlsAcceptor, StartupError>)
    ensures
        !nul_free(pass.spec_bytes()) ==> r == Err::<native_tls::TlsAcceptor, StartupError>(
            StartupError::InvalidIdentity,
        ),
{
    let bytes = pass.as_bytes();
    let mut i: usize = 0;
    while i < bytes.len()
        invariant
            bytes@ == pass.spec_bytes(),
            i <= bytes@.len(),
            forall|j: int| 0 <= j < i ==> bytes@[j] != 0,
        decreases bytes@.len() - i,
    {
        if bytes[i] == 0 {
            return Err(StartupError::InvalidIdentity);
        }
        i = i + 1;
    }
    match identity_from_pkcs12(der, pass) {
        Err(_) => Err(StartupError::InvalidIdentity),
        Ok(identity) => match acceptor_for(identity) {
            Err(_) => Err(StartupError::AcceptorSetup),
            Ok(acceptor) => Ok(acceptor),
        },
    }
}

/// Settles the startup from the settings, the outcome of making the TLS
/// context when a PKCS #12 file is configured (`None` when none is), and
/// the port of the secure address. Without a file the server is plain.
/// With one it is secure or does not start at all: it never falls back to
/// plaintext, and on failure there is no socket to bind.
pub fn settle_startup(
    cfg: &ServerConfig,
    tls: Option<Result<native_tls::TlsAcceptor, StartupError>>,
    https_port: u16,
) -> (r: Result<Startup, StartupError>)
    ensures
        tls is None ==> r is Ok && r->Ok_0.acceptor is None,
        tls matches Some(Err(e)) ==> r == Err::<Startup, StartupError>(e),
        tls matches Some(Ok(a)) ==> r is Ok && r->Ok_0.acceptor == Some(a),
        r is Ok ==> r->Ok_0.listeners@.map_values(|l: Listener| l@) == listener_plan(
            tls is Some,
            http_addr_of(*cfg),
            https_addr_of(*cfg),
            https_port,
        ),
{
    let http_addr = http_listen_addr(cfg);
    let https_addr = https_listen_addr(cfg);
    match tls {
        None => Ok(
            Startup { acceptor: None, listeners: plan_listeners(false, &http_addr, &https_addr, https_port) },
        ),
        Some(Err(e)) => Err(e),
        Some(Ok(acceptor)) => Ok(
            Startup {
                acceptor: Some(acceptor),
                listeners: plan_listeners(true, &http_addr, &https_addr, https_port),
            },
        ),
    }
}

/// Settles the startup from the settings, the contents of the PKCS #12
/// file when one is configured, and the port of the secure address: the
/// file's identity is decoded with the configured passphrase (empty when
/// none is given) and the outcome settled as above.
pub fn prepare_startup(cfg: &ServerConfig, pkcs12: Option<Vec<u8>>, https_port: u16) -> (r: Result<Startup, StartupError>)
    requires
        pkcs12 is Some == cfg.ssl_pkcs12_file is Some,
    ensures
        cfg.ssl_pkcs12_file is None ==> r is Ok && r->Ok_0.acceptor is None,
        cfg.ssl_pkcs12_file is Some && r is Ok ==> r->Ok_0.acceptor is Some,
        cfg.ssl_pkcs12_file is Some && !nul_free(vstd::utf8::encode_utf8(pass_of(*cfg))) ==> r
            == Err::<Startup, StartupError>(StartupError::InvalidIdentity),
        r is Ok ==> r->Ok_0.listeners@.map_values(|l: Listener| l@) == listener_plan(
            cfg.ssl_pkcs12_file is Some,
            http_addr_of(*cfg),
            https_addr_of(*cfg),
            https_port,
        ),
{
    let tls = match pkcs12 {
        None => None,
        Some(der) => {
            let pass = pkcs12_pass(cfg);
            Some(tls_acceptor(der.as_slice(), pass.as_str()))
        },
    };
    settle_startup(cfg, tls, https_port)
}

/// The stream a connection goes on with after its handshake, if any.
pub open spec fn served_stream<S, E>(r: Result<S, E>) -> Option<S> {
    match r {
        Ok(s) => Some(s),
        Err(_) => None,
    }
}

/// The streams served, in order, for handshakes that ended as `rs`.
pub open spec fn served_streams<S, E>(rs: Seq<Result<S, E>>) -> Seq<S>
    decreases rs.len(),
{
    if rs.len() == 0 {
        Seq::empty()
    } else {
        match rs[0] {
            Ok(s) => seq![s] + served_streams(rs.drop_first()),
            Err(_) => served_streams(rs.drop_first()),
        }
    }
}

/// What becomes of one connection once its TLS handshake is over: a
/// successful one is served, a failed one is dropped. The decision is the
/// connection's own; the accept loop goes on either way.
pub fn handshake_outcome<S, E>(r: Result<S, E>) -> (o: Option<S>)
    ensures
        o == served_stream(r),
{
    match r {
        Ok(s) => Some(s),
        Err(_) => None,
    }
}

proof fn lemma_served_streams_append<S, E>(a: Seq<Result<S, E>>, b: Seq<Result<S, E>>)
    ensures
        served_streams(a + b) == served_streams(a) + served_streams(b),
    decreases a.len(),
{
    if a.len() == 0 {
        assert(a + b =~= b);
        assert(served_streams(a) + served_streams(b) =~= served_streams(b));
    } else {
        lemma_served_streams_append(a.drop_first(), b);
        assert((a + b).drop_first() =~= a.drop_first() + b);
        match a[0] {
            Ok(s) => {
                assert(seq![s] + (served_streams(a.drop_first()) + served_streams(b)) =~= (seq![s]
                    + served_streams(a.drop_first())) + served_streams(b));
            },
            Err(_) => {},
        }
    }
}

/// A failed handshake takes nothing from the other connections: with it
/// anywhere among them, exactly the same streams are served in the same
/// order; and a successful one among them is served, whatever failed
/// around it.
pub proof fn lemma_handshake_isolation<S, E>(
    before: Seq<Result<S, E>>,
    after: Seq<Result<S, E>>,
    e: E,
    s: S,
)
    ensures
        served_streams(before + seq![Err(e)] + after) == served_streams(before) + served_streams(
            after,
        ),
        served_streams(before + seq![Ok(s)] + after) == served_streams(before) + seq![s]
            + served_streams(after),
{
    let fail: Seq<Result<S, E>> = seq![Err(e)];
    let good: Seq<Result<S, E>> = seq![Ok(s)];
    lemma_served_streams_append(before, fail);
    lemma_served_streams_append(before + fail, after);
    assert(fail.drop_first() =~= Seq::<Result<S, E>>::empty());
    assert(served_streams(fail.drop_first()) =~= Seq::<S>::empty());
    assert(served_streams(fail) =~= Seq::<S>::empty());
    assert(served_streams(before) + served_streams(fail) =~= served_streams(before));
    lemma_served_streams_append(before, good);
    lemma_served_streams_append(before + good, after);
    assert(good.drop_first() =~= Seq::<Result<S, E>>::empty());
    assert(served_streams(good.drop_first()) =~= Seq::<S>::empty());
    assert(served_streams(good) =~= seq![s]);
}

/// Every socket without TLS in `plan` serves the redirect to `https_port`.
pub open spec fn plain_sockets_redirect(plan: Seq<ListenerView>, https_port: u16) -> bool {
    forall|i: int|
        0 <= i < plan.len() && !plan[i].tls ==> plan[i].service == (ServiceKind::Redirect {
            https_port,
        })
}

/// Some socket in `plan` is bound to `addr`.
pub open spec fn binds(plan: Seq<ListenerView>, addr: Seq<char>) -> bool {
    exists|i: int| 0 <= i < plan.len() && plan[i].addr == addr
}

/// A request that names its host is answered with a 301 to the same path
/// on `https_port`.
pub open spec fn redirects_to_secure(https_port: u16, req: RequestView) -> bool {
    let r = RedirectService { https_port }.response_for(req);
    host_of(req.headers) is Some ==> {
        &&& r.status == STATUS_MOVED_PERMANENTLY
        &&& r.headers == seq![
            (location_name(), secure_location(host_of(req.headers)->Some_0, https_port, req.uri)),
        ]
    }
}

/// With TLS on, no plain socket serves the main service: the plain
/// address carries the redirect to the secure port, and a request there
/// that names its host gets a 301 to the same path on the secure port.
pub proof fn lemma_secure_mode_redirects_plaintext(
    http: Seq<char>,
    https: Seq<char>,
    https_port: u16,
    req: RequestView,
)
    ensures
        plain_sockets_redirect(listener_plan(true, http, https, https_port), https_port),
        binds(listener_plan(true, http, https, https_port), http),
        redirects_to_secure(https_port, req),
{
    let plan = listener_plan(true, http, https, https_port);
    assert(plan[1].addr == http);
}

/// With TLS off, the plain address alone is bound and serves the main
/// service directly; nothing listens on a distinct secure address.
pub proof fn lemma_plain_mode_serves_directly(http: Seq<char>, https: Seq<char>, https_port: u16)
    ensures
        listener_plan(false, http, https, https_port) == seq![
            (ListenerView { addr: http, tls: false, service: ServiceKind::Main }),
        ],
        https != http ==> !binds(listener_plan(false, http, https, https_port), https),
{
}

} // verus!
