use dispatch_core::server::{
    handshake_outcome, http_listen_addr, http_thread_count, https_listen_addr, pkcs12_pass,
    plan_listeners, prepare_startup, settle_startup, tls_acceptor, Listener, ServerConfig, ServiceKind,
    StartupError,
};

fn config() -> ServerConfig {
    ServerConfig {
        listen_addr: None,
        listen_addr_ssl: None,
        ssl_pkcs12_file: None,
        ssl_pkcs12_pass: None,
        num_http_threads: None,
    }
}

fn shape(ls: &[Listener]) -> Vec<(String, bool, ServiceKind)> {
    ls.iter().map(|l| (l.addr.clone(), l.tls, l.service)).collect()
}

#[test]
fn thread_count_defaults_and_floor() {
    assert_eq!(http_thread_count(None), 20);
    assert_eq!(http_thread_count(Some(0)), 2);
    assert_eq!(http_thread_count(Some(1)), 2);
    assert_eq!(http_thread_count(Some(2)), 2);
    assert_eq!(http_thread_count(Some(64)), 64);
}

#[test]
fn addresses_default_and_configured() {
    let mut c = config();
    assert_eq!(http_listen_addr(&c), "0.0.0.0:3000");
    assert_eq!(https_listen_addr(&c), "0.0.0.0:3001");
    assert_eq!(pkcs12_pass(&c), "");
    c.listen_addr = Some("127.0.0.1:8080".to_string());
    c.listen_addr_ssl = Some("127.0.0.1:8443".to_string());
    c.ssl_pkcs12_pass = Some("hunter2".to_string());
    assert_eq!(http_listen_addr(&c), "127.0.0.1:8080");
    assert_eq!(https_listen_addr(&c), "127.0.0.1:8443");
    assert_eq!(pkcs12_pass(&c), "hunter2");
}

#[test]
fn secure_plan_redirects_plain_address() {
    let ls = plan_listeners(true, &"0.0.0.0:3000".to_string(), &"0.0.0.0:3001".to_string(), 3001);
    assert_eq!(
        shape(&ls),
        vec![
            ("0.0.0.0:3001".to_string(), true, ServiceKind::Main),
            ("0.0.0.0:3000".to_string(), false, ServiceKind::Redirect { https_port: 3001 }),
        ]
    );
}

#[test]
fn plain_plan_serves_main_only() {
    let ls = plan_listeners(false, &"0.0.0.0:3000".to_string(), &"0.0.0.0:3001".to_string(), 3001);
    assert_eq!(shape(&ls), vec![("0.0.0.0:3000".to_string(), false, ServiceKind::Main)]);
}

#[test]
fn startup_without_identity_is_plain() {
    let s = prepare_startup(&config(), None, 3001).ok().unwrap();
    assert!(s.acceptor.is_none());
    assert_eq!(shape(&s.listeners), vec![("0.0.0.0:3000".to_string(), false, ServiceKind::Main)]);
}

#[test]
fn startup_with_undecodable_identity_aborts() {
    let mut c = config();
    c.ssl_pkcs12_file = Some("identity.p12".to_string());
    c.ssl_pkcs12_pass = Some("wrong".to_string());
    let r = prepare_startup(&c, Some(b"definitely not a pkcs12 archive".to_vec()), 3001);
    assert_eq!(r.err(), Some(StartupError::InvalidIdentity));
    let empty = prepare_startup(&c, Some(Vec::new()), 3001);
    assert_eq!(empty.err(), Some(StartupError::InvalidIdentity));
}

#[test]
fn acceptor_from_garbage_is_invalid_identity() {
    assert_eq!(tls_acceptor(&[0x30, 0x03, 0x02, 0x01, 0x03], "").err(), Some(StartupError::InvalidIdentity));
}

#[test]
fn failed_handshake_does_not_stop_the_next() {
    let outcomes: Vec<Result<&str, String>> =
        vec![Err("bad handshake".to_string()), Ok("second"), Err("eof".to_string()), Ok("fourth")];
    let served: Vec<&str> = outcomes.into_iter().filter_map(handshake_outcome).collect();
    assert_eq!(served, vec!["second", "fourth"]);
}

#[test]
fn settle_passes_tls_failure_through() {
    let mut c = config();
    c.ssl_pkcs12_file = Some("identity.p12".to_string());
    assert_eq!(settle_startup(&c, Some(Err(StartupError::AcceptorSetup)), 3001).err(), Some(StartupError::AcceptorSetup));
    assert_eq!(settle_startup(&c, Some(Err(StartupError::InvalidIdentity)), 3001).err(), Some(StartupError::InvalidIdentity));
}

#[test]
fn settle_without_tls_uses_configured_plain_address() {
    let mut c = config();
    c.listen_addr = Some("[::1]:9000".to_string());
    let s = settle_startup(&c, None, 9443).ok().unwrap();
    assert!(s.acceptor.is_none());
    assert_eq!(shape(&s.listeners), vec![("[::1]:9000".to_string(), false, ServiceKind::Main)]);
}

#[test]
fn passphrase_with_nul_is_invalid_identity() {
    assert_eq!(tls_acceptor(b"not an archive", "pa\0ss").err(), Some(StartupError::InvalidIdentity));
    let mut c = config();
    c.ssl_pkcs12_file = Some("identity.p12".to_string());
    c.ssl_pkcs12_pass = Some("\0".to_string());
    let r = prepare_startup(&c, Some(vec![0x30, 0x00]), 3001);
    assert_eq!(r.err(), Some(StartupError::InvalidIdentity));
}
