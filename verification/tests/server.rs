use http_server::acme::{CertificateMetadata, LetsEncryptConfig, StoredMetadata};
use http_server::cert_manager::{
    CertificateManager, ManagerAction, ManagerEvent, ManagerPhase, RenewalError,
};
use http_server::clock::UtcTime;
use http_server::config::{configure, load_config, Config, ConfigError, Environment};
use http_server::http_redirect::{check_header_text, handle_redirect};
use http_server::provision::{Action, Attempt, Event, FileStamp, PairStamp, Phase, Provision};
use http_server::proxy::{
    proxy_request, step_exchange, Exchange, ProxyAction, ProxyError, ProxyEvent, ProxyProgress,
    ReverseProxy,
};
use http_server::server::{
    cert_health_at, cert_health_path, challenge_path, handle_acme_challenge, handle_connection,
    handler_cert_health, handler_health, handler_root, step_connection, Connection,
    ConnectionAction, ConnectionError, ConnectionEvent, ConnectionProgress, HealthReply,
    HealthStatus,
};

const DAY: i64 = 86_400;

fn time(secs: i64) -> UtcTime {
    UtcTime::new(secs, 0).unwrap()
}

fn metadata(expires_at: UtcTime) -> CertificateMetadata {
    CertificateMetadata {
        domain: "example.com".to_string(),
        issued_at: time(0),
        expires_at,
        cert_path: "certs/cert.pem".to_string(),
        key_path: "certs/key.pem".to_string(),
    }
}

fn pair() -> PairStamp {
    let stamp = FileStamp { modified: time(7), len: 240 };
    PairStamp { cert: stamp, key: stamp }
}

fn env() -> Environment {
    Environment {
        domain: Some("example.com".to_string()),
        email: Some("a@b.c".to_string()),
        cert_dir: None,
        use_staging: None,
        host: None,
        port: None,
    }
}

#[test]
fn the_defaults_stand_where_nothing_is_set() {
    let c: Config = load_config(env()).unwrap();
    assert_eq!(c.domain, "example.com");
    assert_eq!(c.email, "a@b.c");
    assert_eq!(c.cert_dir, "certs/");
    assert!(c.use_staging);
    assert_eq!(c.host, "0.0.0.0");
    assert_eq!(c.port, 443);
    assert_eq!(c.bind_address(), "0.0.0.0:443");
}

#[test]
fn variables_that_are_set_are_used() {
    let mut e = env();
    e.cert_dir = Some("/var/certs".to_string());
    e.use_staging = Some("no".to_string());
    e.host = Some("::1".to_string());
    e.port = Some("8443".to_string());
    let c = load_config(e).unwrap();
    assert_eq!(c.cert_dir, "/var/certs");
    assert!(!c.use_staging);
    assert_eq!(c.bind_address(), "::1:8443");
}

#[test]
fn staging_is_switched_on_by_true_alone() {
    let cases = vec![
        ("true", true),
        ("TRUE", true),
        ("True", true),
        ("tRuE", true),
        ("false", false),
        ("", false),
        ("1", false),
        ("yes", false),
        (" true", false),
        ("truE\u{301}", false),
    ];
    for (value, expected) in cases {
        let mut e = env();
        e.use_staging = Some(value.to_string());
        assert_eq!(load_config(e).unwrap().use_staging, expected, "{}", value);
    }
}

#[test]
fn the_lowered_variable_decides_on_staging() {
    assert!(configure(env(), None).unwrap().use_staging);
    assert!(configure(env(), Some("true".to_string())).unwrap().use_staging);
    assert!(!configure(env(), Some("TRUE".to_string())).unwrap().use_staging);
}

#[test]
fn a_missing_variable_is_reported_in_order() {
    let mut e = env();
    e.domain = None;
    e.email = None;
    e.port = Some("x".to_string());
    assert_eq!(load_config(e).unwrap_err(), ConfigError::DomainNotSet);
    let mut e = env();
    e.email = None;
    e.port = Some("x".to_string());
    assert_eq!(load_config(e).unwrap_err(), ConfigError::EmailNotSet);
    let mut e = env();
    e.port = Some("65536".to_string());
    assert_eq!(load_config(e).unwrap_err(), ConfigError::InvalidPort);
}

#[test]
fn errors_of_the_configuration_have_their_texts() {
    assert_eq!(ConfigError::DomainNotSet.message(), "DOMAIN not set in environment");
    assert_eq!(ConfigError::EmailNotSet.message(), "EMAIL not set in environment");
    assert_eq!(ConfigError::InvalidPort.message(), "Invalid PORT value");
}

#[test]
fn the_root_and_the_health_check_answer() {
    assert_eq!(handler_root(), "<h1>Welcome to Rust HTTPS Server with Let's Encrypt!</h1>");
    assert_eq!(handler_health().status, 200);
    assert_eq!(handler_health().body, "OK");
}

#[test]
fn the_status_follows_from_the_days() {
    let cases = vec![
        (31, HealthStatus::Healthy, "healthy"),
        (30, HealthStatus::RenewingSoon, "renewing_soon"),
        (8, HealthStatus::RenewingSoon, "renewing_soon"),
        (7, HealthStatus::Critical, "critical"),
        (0, HealthStatus::Critical, "critical"),
        (-5, HealthStatus::Critical, "critical"),
    ];
    for (days, status, text) in cases {
        let stored = StoredMetadata::Found(metadata(time(100 * DAY)));
        match cert_health_at(stored, &time((100 - days) * DAY)) {
            HealthReply::Report(report) => {
                assert_eq!(report.status, status);
                assert_eq!(report.status.as_text(), text);
                assert_eq!(report.days_until_expiry, days);
                assert_eq!(report.domain, "example.com");
                assert_eq!(report.expires_at, time(100 * DAY));
            }
            HealthReply::Unavailable(_) => panic!("no report"),
        }
    }
}

#[test]
fn a_healthy_certificate_is_not_due() {
    let config = LetsEncryptConfig::new("d".to_string(), "e".to_string(), "certs/", true);
    for secs in [68 * DAY, 69 * DAY, 69 * DAY + 1, 70 * DAY, 70 * DAY + 1, 80 * DAY] {
        let m = metadata(time(100 * DAY));
        let due = config.needs_renewal_at(&m, &time(secs));
        match cert_health_at(StoredMetadata::Found(m), &time(secs)) {
            HealthReply::Report(report) => {
                assert!(!(due && report.status == HealthStatus::Healthy));
                assert_eq!(report.status == HealthStatus::Healthy, secs <= 69 * DAY);
            }
            HealthReply::Unavailable(_) => panic!("no report"),
        }
    }
}

fn unavailable(stored: StoredMetadata) -> (u16, &'static str) {
    match handler_cert_health(stored) {
        HealthReply::Report(_) => panic!("a report"),
        HealthReply::Unavailable(reply) => (reply.status, reply.body),
    }
}

#[test]
fn without_metadata_there_is_no_report() {
    assert_eq!(unavailable(StoredMetadata::Missing), (503, "No certificate found"));
    assert_eq!(
        unavailable(StoredMetadata::Unreadable("io".to_string())),
        (503, "No certificate found")
    );
    assert_eq!(
        unavailable(StoredMetadata::Malformed("json".to_string())),
        (500, "Failed to parse metadata")
    );
}

#[test]
fn the_report_goes_by_the_clock() {
    let now = chrono::Utc::now().timestamp();
    let stored = StoredMetadata::Found(metadata(time(now + 50 * DAY + 3600)));
    match handler_cert_health(stored) {
        HealthReply::Report(report) => {
            assert_eq!(report.days_until_expiry, 50);
            assert_eq!(report.status, HealthStatus::Healthy);
        }
        HealthReply::Unavailable(_) => panic!("no report"),
    }
}

#[test]
fn the_report_is_on_the_certificate_directory() {
    assert_eq!(cert_health_path("certs/"), "certs/cert_metadata.json");
    assert_eq!(cert_health_path("/var/c"), "/var/c/cert_metadata.json");
    for dir in ["certs/", "/var/c", "", "."] {
        let config = LetsEncryptConfig::new("d".to_string(), "e".to_string(), dir, true);
        assert_eq!(cert_health_path(dir), config.metadata_path());
    }
}

#[test]
fn challenges_are_answered_from_their_files() {
    assert_eq!(challenge_path("certs/", "abc"), "certs/.well-known/acme-challenge/abc");
    assert_eq!(challenge_path("/var/c", "abc"), "/var/c/.well-known/acme-challenge/abc");
    assert_eq!(handle_acme_challenge(Some("abc.key".to_string())), Ok("abc.key".to_string()));
    assert_eq!(handle_acme_challenge(None), Err(404));
}

#[test]
fn a_connection_is_served_once_it_is_secure() {
    let (connection, action) = handle_connection();
    assert_eq!(connection, Connection::Handshaking);
    assert_eq!(action, ConnectionAction::Handshake { timeout_secs: 10 });
    match step_connection(connection, ConnectionEvent::Done) {
        ConnectionProgress::Continue(next, action) => {
            assert_eq!(next, Connection::Serving);
            assert_eq!(action, ConnectionAction::Serve { timeout_secs: 60 });
            assert!(matches!(
                step_connection(next, ConnectionEvent::Done),
                ConnectionProgress::Closed(Ok(()))
            ));
        }
        ConnectionProgress::Closed(_) => panic!("the connection was closed"),
    }
}

fn closed(connection: Connection, event: ConnectionEvent) -> ConnectionError {
    match step_connection(connection, event) {
        ConnectionProgress::Closed(result) => result.unwrap_err(),
        ConnectionProgress::Continue(_, _) => panic!("the connection went on"),
    }
}

#[test]
fn what_goes_wrong_closes_a_connection() {
    let late = closed(Connection::Handshaking, ConnectionEvent::TimedOut);
    assert!(matches!(late, ConnectionError::HandshakeTimeout));
    assert_eq!(late.message(), "TLS handshake timeout");
    let late = closed(Connection::Serving, ConnectionEvent::TimedOut);
    assert!(matches!(late, ConnectionError::ConnectionTimeout));
    assert_eq!(late.message(), "Connection timeout");
    for connection in [Connection::Handshaking, Connection::Serving] {
        let error = closed(connection, ConnectionEvent::Failed("reset".to_string()));
        assert_eq!(error.message(), "reset");
    }
}

#[test]
fn plain_requests_are_sent_to_https_for_good() {
    let r = handle_redirect("example.com", "/?a=b");
    assert_eq!(r.status, 308);
    assert_eq!(r.location, "https://example.com/?a=b");
    assert_eq!(handle_redirect("é", "\t/").location, "https://é\t/");
}

#[test]
fn header_texts_are_those_of_http() {
    for c in (0u8..=255).map(char::from).chain(vec!['€', '\u{10ffff}']) {
        let s = c.to_string();
        assert_eq!(
            check_header_text(&s),
            axum::http::HeaderValue::try_from(s.as_str()).is_ok()
        );
    }
    assert!(check_header_text(""));
    assert!(!check_header_text("ok\r\nno"));
}

#[test]
fn the_longest_route_wins() {
    let mut proxy = ReverseProxy::new();
    assert_eq!(proxy.get_upstream("/api"), None);
    proxy.add_route("/api", "http://one");
    proxy.add_route("/api/v2", "http://two");
    proxy.add_route("/é", "http://three");
    assert_eq!(proxy.get_upstream("/api/v1"), Some("http://one".to_string()));
    assert_eq!(proxy.get_upstream("/api/v2/x"), Some("http://two".to_string()));
    assert_eq!(proxy.get_upstream("/api/v2"), Some("http://two".to_string()));
    assert_eq!(proxy.get_upstream("/apiary"), Some("http://one".to_string()));
    assert_eq!(proxy.get_upstream("/és"), Some("http://three".to_string()));
    assert_eq!(proxy.get_upstream("/"), None);
    assert_eq!(proxy.get_upstream(""), None);
    proxy.add_route("", "http://any");
    assert_eq!(proxy.get_upstream("/"), Some("http://any".to_string()));
    assert_eq!(proxy.get_upstream("/api/v2"), Some("http://two".to_string()));
}

#[test]
fn a_route_is_replaced() {
    let mut proxy = ReverseProxy::default();
    proxy.add_route("/a", "http://one");
    proxy.add_route("/b", "http://two");
    proxy.add_route("/a", "http://three");
    assert_eq!(proxy.get_upstream("/a"), Some("http://three".to_string()));
    assert_eq!(proxy.get_upstream("/b"), Some("http://two".to_string()));
}

fn requested(path_and_query: Option<&str>, upstream: &str) -> String {
    let (exchange, action) =
        proxy_request(path_and_query.map(|p| p.to_string()), upstream.to_string());
    assert_eq!(exchange, Exchange::Sending);
    match action {
        ProxyAction::Get { uri } => uri,
        ProxyAction::ReadBody => panic!("nothing is requested"),
    }
}

#[test]
fn requests_are_passed_on_with_path_and_query() {
    assert_eq!(requested(Some("/a?b=c"), "http://up"), "http://up/a?b=c");
    assert_eq!(requested(None, "http://up"), "http://up");
}

#[test]
fn replies_are_passed_back() {
    let replied = ProxyEvent::Replied { status: 418 };
    assert!(Exchange::Sending.takes(&replied));
    let next = match step_exchange(Exchange::Sending, replied) {
        ProxyProgress::Continue(next, action) => {
            assert!(matches!(action, ProxyAction::ReadBody));
            next
        }
        ProxyProgress::Finished(_) => panic!("the exchange ended"),
    };
    assert_eq!(next, Exchange::Receiving { status: 418 });
    let body = ProxyEvent::Body(vec![1, 2, 3]);
    assert!(next.takes(&body));
    assert!(!Exchange::Sending.takes(&body));
    match step_exchange(next, body) {
        ProxyProgress::Finished(Ok(response)) => {
            assert_eq!(response.status, 418);
            assert_eq!(response.body, vec![1, 2, 3]);
        }
        _ => panic!("no reply"),
    }
}

#[test]
fn a_status_has_three_digits() {
    for status in [0u16, 99, 1000, 65535] {
        assert!(matches!(
            step_exchange(Exchange::Sending, ProxyEvent::Replied { status }),
            ProxyProgress::Finished(Err(ProxyError::InvalidStatus))
        ));
    }
    for status in [100u16, 200, 999] {
        assert!(matches!(
            step_exchange(Exchange::Sending, ProxyEvent::Replied { status }),
            ProxyProgress::Continue(Exchange::Receiving { status: s }, _) if s == status
        ));
    }
}

#[test]
fn a_server_that_fails_is_reported() {
    for exchange in [Exchange::Sending, Exchange::Receiving { status: 200 }] {
        assert!(matches!(
            step_exchange(exchange, ProxyEvent::Failed("refused".to_string())),
            ProxyProgress::Finished(Err(ProxyError::Upstream(why))) if why == "refused"
        ));
    }
}

fn manager() -> CertificateManager {
    let config = LetsEncryptConfig::new(
        "example.com".to_string(),
        "a@b.c".to_string(),
        "certs/",
        true,
    );
    CertificateManager::new(config)
}

fn advance(manager: &mut CertificateManager, event: ManagerEvent) -> ManagerAction {
    assert!(manager.accepts(&event));
    manager.advance(event)
}

#[test]
fn a_valid_certificate_is_left_alone_for_a_day() {
    let mut m = manager();
    assert!(matches!(
        m.start_renewal_loop(),
        ManagerAction::LoadMetadata { path } if path == "certs/cert_metadata.json"
    ));
    let action = m.check_and_renew(StoredMetadata::Found(metadata(time(8_000_000_000_000))));
    assert!(matches!(action, ManagerAction::Sleep { secs: 86_400, outcome: Ok(false) }));
    assert!(matches!(
        advance(&mut m, ManagerEvent::Slept),
        ManagerAction::LoadMetadata { path } if path == "certs/cert_metadata.json"
    ));
}

#[test]
fn a_missing_or_expired_certificate_is_obtained() {
    for stored in [StoredMetadata::Missing, StoredMetadata::Found(metadata(time(0)))] {
        let mut m = manager();
        m.start_renewal_loop();
        assert!(matches!(
            m.check_and_renew(stored),
            ManagerAction::Provision(Action::InspectPair { cert, .. })
                if cert == "/etc/letsencrypt/live/example.com/fullchain.pem"
        ));
        assert!(matches!(m.phase, ManagerPhase::Provisioning(_)));
    }
}

#[test]
fn the_answer_to_whether_it_is_due_decides() {
    let mut m = manager();
    m.start_renewal_loop();
    assert!(matches!(m.renew_if(false), ManagerAction::Sleep { outcome: Ok(false), .. }));
    m.start_renewal_loop();
    assert!(matches!(m.renew_if(true), ManagerAction::Provision(_)));
}

#[test]
fn a_check_goes_by_the_metadata_and_the_instant() {
    for (now, due) in [(70 * DAY, false), (70 * DAY + 1, true), (200 * DAY, true)] {
        let mut m = manager();
        m.start_renewal_loop();
        let stored = StoredMetadata::Found(metadata(time(100 * DAY)));
        let action = m.check_and_renew_at(stored, &time(now));
        if due {
            assert!(matches!(action, ManagerAction::Provision(_)));
            assert!(matches!(m.phase, ManagerPhase::Provisioning(_)));
        } else {
            assert!(matches!(action, ManagerAction::Sleep { outcome: Ok(false), .. }));
            assert!(matches!(m.phase, ManagerPhase::Resting));
        }
    }
    for stored in [
        StoredMetadata::Missing,
        StoredMetadata::Unreadable("io".to_string()),
        StoredMetadata::Malformed("json".to_string()),
    ] {
        let mut m = manager();
        m.start_renewal_loop();
        assert!(matches!(m.check_and_renew_at(stored, &time(0)), ManagerAction::Provision(_)));
    }
}

fn provisioned() -> CertificateManager {
    let mut m = manager();
    let attempt = Attempt::SavingFile(metadata(time(5)));
    m.phase = ManagerPhase::Provisioning(Provision {
        attempt: 3,
        live_before: None,
        phase: Phase::Trying(attempt),
    });
    m
}

#[test]
fn the_server_changes_to_a_new_certificate() {
    let mut m = provisioned();
    assert!(matches!(
        advance(&mut m, ManagerEvent::Provision(Event::Succeeded)),
        ManagerAction::LoadTls { cert_path, key_path }
            if cert_path == "certs/cert.pem" && key_path == "certs/key.pem"
    ));
    assert!(matches!(advance(&mut m, ManagerEvent::TlsLoaded), ManagerAction::CreateAcceptor));
    assert!(matches!(
        advance(&mut m, ManagerEvent::AcceptorCreated),
        ManagerAction::SwapAcceptor { cert_path } if cert_path == "certs/cert.pem"
    ));
    assert!(matches!(
        advance(&mut m, ManagerEvent::Swapped),
        ManagerAction::Sleep { secs: 86_400, outcome: Ok(true) }
    ));
}

fn outcome(action: ManagerAction) -> RenewalError {
    match action {
        ManagerAction::Sleep { secs, outcome } => {
            assert_eq!(secs, 86_400);
            outcome.unwrap_err()
        }
        _ => panic!("the check went on"),
    }
}

#[test]
fn what_goes_wrong_ends_a_check_without_a_change() {
    let mut m = provisioned();
    let failed = ManagerEvent::Provision(Event::Failed("disk full".to_string()));
    let error = outcome(advance(&mut m, failed));
    assert!(matches!(error, RenewalError::Provision(_)));
    assert_eq!(
        error.message(),
        "Certificate provisioning failed after 3 attempts: disk full"
    );

    let mut m = provisioned();
    advance(&mut m, ManagerEvent::Provision(Event::Succeeded));
    let error = outcome(advance(&mut m, ManagerEvent::TlsFailed("no key".to_string())));
    assert_eq!(error.message(), "Failed to load TLS config: no key");

    let mut m = provisioned();
    advance(&mut m, ManagerEvent::Provision(Event::Succeeded));
    advance(&mut m, ManagerEvent::TlsLoaded);
    let error = outcome(advance(&mut m, ManagerEvent::AcceptorFailed("bad key".to_string())));
    assert_eq!(error.message(), "Failed to create acceptor: bad key");
    assert!(matches!(
        advance(&mut m, ManagerEvent::Slept),
        ManagerAction::LoadMetadata { .. }
    ));
}

#[test]
fn events_of_another_phase_are_not_accepted() {
    let m = manager();
    assert!(m.accepts(&ManagerEvent::Slept));
    assert!(!m.accepts(&ManagerEvent::Swapped));
    assert!(!m.accepts(&ManagerEvent::Provision(Event::Succeeded)));
    assert!(!provisioned().accepts(&ManagerEvent::Provision(Event::Slept)));
}

#[test]
fn a_check_comes_before_a_certificate_expires() {
    let config = manager().config;
    let expires = 100 * DAY;
    let m = metadata(time(expires));
    for start in [0, 12_345, DAY - 1] {
        let mut now = start;
        while !config.needs_renewal_at(&m, &time(now)) {
            now += DAY;
        }
        assert!(now < expires);
        assert!(now > expires - 30 * DAY);
        assert!(config.needs_renewal_at(&m, &time(expires)));
    }
}

/// An answer that lets obtaining a certificate take as long as it can, and
/// succeed in the last attempt.
fn slow_answer(state: &Provision) -> Event {
    match &state.phase {
        Phase::Starting => Event::Pair(None),
        Phase::Waiting(_) => Event::Slept,
        Phase::Trying(attempt) => match attempt {
            Attempt::ReadingTemplate { .. } => Event::Template(None),
            Attempt::RunningCommand { .. } => {
                Event::CommandExited { success: true, status: "exit status: 0".to_string() }
            }
            Attempt::InspectingBefore
            | Attempt::InspectingLocal { .. }
            | Attempt::InspectingLive { .. } => Event::Pair(Some(pair())),
            Attempt::ReadingDates => Event::Dates { expires_at: time(2), issued_at: time(1) },
            Attempt::SavingFile(_) if state.attempt < 3 => Event::Failed("disk full".to_string()),
            _ => Event::Succeeded,
        },
    }
}

#[test]
fn a_check_ends_and_changes_the_acceptor_once() {
    let mut m = manager();
    m.start_renewal_loop();
    m.renew_if(true);
    let mut events = 1;
    let mut swaps = 0;
    loop {
        let event = match &m.phase {
            ManagerPhase::Provisioning(state) => ManagerEvent::Provision(slow_answer(state)),
            ManagerPhase::LoadingTls(_) => ManagerEvent::TlsLoaded,
            ManagerPhase::CreatingAcceptor(_) => ManagerEvent::AcceptorCreated,
            ManagerPhase::Swapping(_) => ManagerEvent::Swapped,
            ManagerPhase::Resting | ManagerPhase::Loading => panic!("no check"),
        };
        events += 1;
        match advance(&mut m, event) {
            ManagerAction::SwapAcceptor { cert_path } => {
                swaps += 1;
                assert_eq!(cert_path, m.config.local_cert());
            }
            ManagerAction::LoadTls { cert_path, key_path } => {
                assert_eq!(cert_path, m.config.local_cert());
                assert_eq!(key_path, m.config.local_key());
            }
            ManagerAction::Provision(Action::WriteMetadata { path, .. }) => {
                assert_eq!(path, m.config.metadata_path());
            }
            ManagerAction::Sleep { outcome, .. } => {
                assert!(outcome.unwrap());
                break;
            }
            _ => {}
        }
    }
    assert_eq!(swaps, 1);
    assert_eq!(events, 46);
}
