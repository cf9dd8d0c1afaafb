//! What the HTTPS server answers, and how long it bears with a connection.

use vstd::prelude::*;
use vstd::string::*;

use crate::acme::{
    CertificateMetadata, LetsEncryptView, MetadataView, StoredMetadata, METADATA_FILE,
};
use crate::clock::{clock_reading, given_by_clock, UtcTime, NANOS_PER_SEC, SECS_PER_DAY};
use crate::paths;

verus! {

/// An answer in plain text.
#[derive(Clone, Copy, Debug)]
pub struct PlainReply {
    pub status: u16,
    pub body: &'static str,
}

/// The page at the root.
pub fn handler_root() -> (html: &'static str)
    ensures
        html@ == "<h1>Welcome to Rust HTTPS Server with Let's Encrypt!</h1>"@,
{
    "<h1>Welcome to Rust HTTPS Server with Let's Encrypt!</h1>"
}

/// The answer to whether the server is up.
pub fn handler_health() -> (reply: PlainReply)
    ensures
        reply.status == 200,
        reply.body@ == "OK"@,
{
    PlainReply { status: 200, body: "OK" }
}

/// A certificate with more days than this until it expires is healthy.
pub const HEALTHY_DAYS: i64 = 30;

/// A certificate with no more days than this until it expires is critical.
pub const CRITICAL_DAYS: i64 = 7;

/// How a certificate is doing.
#[derive(Clone, Copy, Debug, PartialEq, Eq, Structural)]
pub enum HealthStatus {
    Healthy,
    RenewingSoon,
    Critical,
}

impl HealthStatus {
    /// How a certificate is doing that expires in so many days.
    pub open spec fn of_days(days: int) -> HealthStatus {
        if days > HEALTHY_DAYS {
            HealthStatus::Healthy
        } else if days > CRITICAL_DAYS {
            HealthStatus::RenewingSoon
        } else {
            HealthStatus::Critical
        }
    }

    /// How the status is reported.
    pub open spec fn text(self) -> Seq<char> {
        match self {
            HealthStatus::Healthy => "healthy"@,
            HealthStatus::RenewingSoon => "renewing_soon"@,
            HealthStatus::Critical => "critical"@,
        }
    }

    /// How the status is reported.
    pub fn as_text(&self) -> (out: &'static str)
        ensures
            out@ == self.text(),
    {
        match self {
            HealthStatus::Healthy => "healthy",
            HealthStatus::RenewingSoon => "renewing_soon",
            HealthStatus::Critical => "critical",
        }
    }

    /// How a certificate is doing that expires in so many days.
    pub fn from_days(days: i64) -> (status: HealthStatus)
        ensures
            status == HealthStatus::of_days(days as int),
    {
        if days > HEALTHY_DAYS {
            HealthStatus::Healthy
        } else if days > CRITICAL_DAYS {
            HealthStatus::RenewingSoon
        } else {
            HealthStatus::Critical
        }
    }
}

/// A report on the certificate.
#[derive(Debug)]
pub struct HealthReport {
    pub status: HealthStatus,
    pub domain: String,
    pub expires_at: UtcTime,
    pub days_until_expiry: i64,
}

/// The mathematical content of [`HealthReport`].
pub struct HealthReportView {
    pub status: HealthStatus,
    pub domain: Seq<char>,
    pub expires_at: UtcTime,
    pub days_until_expiry: int,
}

impl View for HealthReport {
    type V = HealthReportView;

    open spec fn view(&self) -> HealthReportView {
        HealthReportView {
            status: self.status,
            domain: self.domain@,
            expires_at: self.expires_at,
            days_until_expiry: self.days_until_expiry as int,
        }
    }
}

/// The report on a certificate at an instant.
pub open spec fn health_report(metadata: MetadataView, now: UtcTime) -> HealthReportView {
    let days = metadata.expires_at.days_since(now);
    HealthReportView {
        status: HealthStatus::of_days(days),
        domain: metadata.domain,
        expires_at: metadata.expires_at,
        days_until_expiry: days,
    }
}

/// The answer to how the certificate is doing.
#[derive(Debug)]
pub enum HealthReply {
    Report(HealthReport),
    Unavailable(PlainReply),
}

/// Whether an answer says, at an instant, how the certificate is doing whose
/// metadata is stored. Without metadata that can be read there is no
/// certificate, and what is no metadata is an error of the server.
pub open spec fn health_answer(stored: StoredMetadata, now: UtcTime, reply: HealthReply) -> bool {
    match stored {
        StoredMetadata::Found(m) => reply matches HealthReply::Report(report) && report@
            == health_report(m@, now),
        StoredMetadata::Malformed(_) => reply matches HealthReply::Unavailable(plain)
            && plain.status == 500 && plain.body@ == "Failed to parse metadata"@,
        _ => reply matches HealthReply::Unavailable(plain) && plain.status == 503 && plain.body@
            == "No certificate found"@,
    }
}

/// Where the metadata stands that is reported on: in the certificate directory.
pub open spec fn health_path(cert_dir: Seq<char>) -> Seq<char> {
    paths::joined(cert_dir, METADATA_FILE@)
}

/// Where the metadata stands that is reported on: in the certificate directory.
pub fn cert_health_path(cert_dir: &str) -> (path: String)
    ensures
        path@ == health_path(cert_dir@),
{
    paths::join(cert_dir, METADATA_FILE)
}

/// Reports on a certificate at an instant.
fn report_at(metadata: CertificateMetadata, now: &UtcTime) -> (report: HealthReport)
    requires
        metadata@.wf(),
        now.wf(),
    ensures
        report@ == health_report(metadata@, *now),
{
    let days: i64 = crate::clock::whole_days_between(&metadata.expires_at, now);
    HealthReport {
        status: HealthStatus::from_days(days),
        domain: metadata.domain,
        expires_at: metadata.expires_at,
        days_until_expiry: days,
    }
}

/// Says why there is nothing to report on.
fn report_missing(stored: StoredMetadata) -> (plain: PlainReply)
    requires
        !(stored is Found),
    ensures
        forall|now: UtcTime| health_answer(stored, now, HealthReply::Unavailable(plain)),
{
    match stored {
        StoredMetadata::Malformed(_) => PlainReply { status: 500, body: "Failed to parse metadata" },
        _ => PlainReply { status: 503, body: "No certificate found" },
    }
}

/// Says how the certificate is doing at an instant.
pub fn cert_health_at(stored: StoredMetadata, now: &UtcTime) -> (reply: HealthReply)
    requires
        stored matches StoredMetadata::Found(m) ==> m@.wf(),
        now.wf(),
    ensures
        health_answer(stored, *now, reply),
{
    match stored {
        StoredMetadata::Found(m) => HealthReply::Report(report_at(m, now)),
        missing => HealthReply::Unavailable(report_missing(missing)),
    }
}

/// Says how the certificate is doing by the clock, which is read only where
/// there is a certificate to report on.
pub fn handler_cert_health(stored: StoredMetadata) -> (reply: HealthReply)
    requires
        stored matches StoredMetadata::Found(m) ==> m@.wf(),
    ensures
        exists|now: UtcTime| #[trigger] clock_reading(now) && health_answer(stored, now, reply),
        stored is Found ==> exists|now: UtcTime| #[trigger]
            given_by_clock(now) && clock_reading(now) && health_answer(stored, now, reply),
        !(stored is Found) ==> forall|now: UtcTime| health_answer(stored, now, reply),
{
    match stored {
        StoredMetadata::Found(m) => {
            let now: UtcTime = crate::clock::utc_now();
            assert(clock_reading(now) && given_by_clock(now));
            cert_health_at(StoredMetadata::Found(m), &now)
        },
        missing => {
            assert(clock_reading(UtcTime { secs: 0, nanos: 0 }));
            HealthReply::Unavailable(report_missing(missing))
        },
    }
}

/// Where the answer to a challenge of the certificate authority stands: in the
/// certificate directory, which is the root that the command is told to use.
pub open spec fn challenge_file(cert_dir: Seq<char>, token: Seq<char>) -> Seq<char> {
    paths::joined(
        paths::joined(paths::joined(cert_dir, ".well-known"@), "acme-challenge"@),
        token,
    )
}

/// Where the answer to a challenge of the certificate authority stands: in the
/// certificate directory, which is the root that the command is told to use.
pub fn challenge_path(cert_dir: &str, token: &str) -> (path: String)
    ensures
        path@ == challenge_file(cert_dir@, token@),
{
    let well_known: String = paths::join(cert_dir, ".well-known");
    let challenges: String = paths::join(well_known.as_str(), "acme-challenge");
    paths::join(challenges.as_str(), token)
}

/// Answers a challenge with what its file holds, if it could be read, and else
/// with the status for what is not found.
pub fn handle_acme_challenge(content: Option<String>) -> (reply: Result<String, u16>)
    ensures
        match content {
            Some(c) => reply == Ok::<String, u16>(c),
            None => reply == Err::<String, u16>(404),
        },
{
    match content {
        Some(c) => Ok(c),
        None => Err(404),
    }
}

/// How many seconds a client may take to establish a secure connection.
pub const HANDSHAKE_TIMEOUT_SECS: u64 = 10;

/// How many seconds a connection may last.
pub const CONNECTION_TIMEOUT_SECS: u64 = 60;

/// What a connection waits for.
#[derive(Clone, Copy, Debug, PartialEq, Eq, Structural)]
pub enum Connection {
    Handshaking,
    Serving,
}

/// Something to do on a connection, for a limited time.
#[derive(Clone, Copy, Debug, PartialEq, Eq, Structural)]
pub enum ConnectionAction {
    /// Establish the secure connection.
    Handshake { timeout_secs: u64 },
    /// Answer the requests that come over it.
    Serve { timeout_secs: u64 },
}

/// What came of it.
#[derive(Debug)]
pub enum ConnectionEvent {
    /// It was done.
    Done,
    /// It took too long.
    TimedOut,
    /// It failed; the text says why.
    Failed(String),
}

/// The mathematical content of [`ConnectionEvent`].
pub enum ConnectionEventView {
    Done,
    TimedOut,
    Failed(Seq<char>),
}

impl View for ConnectionEvent {
    type V = ConnectionEventView;

    open spec fn view(&self) -> ConnectionEventView {
        match self {
            ConnectionEvent::Done => ConnectionEventView::Done,
            ConnectionEvent::TimedOut => ConnectionEventView::TimedOut,
            ConnectionEvent::Failed(why) => ConnectionEventView::Failed(why@),
        }
    }
}

/// Why a connection ended early.
#[derive(Debug)]
pub enum ConnectionError {
    HandshakeTimeout,
    ConnectionTimeout,
    /// The handshake or the connection failed.
    Failed(String),
}

/// The mathematical content of [`ConnectionError`].
pub enum ConnectionErrorView {
    HandshakeTimeout,
    ConnectionTimeout,
    Failed(Seq<char>),
}

impl View for ConnectionError {
    type V = ConnectionErrorView;

    open spec fn view(&self) -> ConnectionErrorView {
        match self {
            ConnectionError::HandshakeTimeout => ConnectionErrorView::HandshakeTimeout,
            ConnectionError::ConnectionTimeout => ConnectionErrorView::ConnectionTimeout,
            ConnectionError::Failed(why) => ConnectionErrorView::Failed(why@),
        }
    }
}

impl ConnectionErrorView {
    /// The error's text.
    pub open spec fn text(self) -> Seq<char> {
        match self {
            ConnectionErrorView::HandshakeTimeout => "TLS handshake timeout"@,
            ConnectionErrorView::ConnectionTimeout => "Connection timeout"@,
            ConnectionErrorView::Failed(why) => why,
        }
    }
}

impl ConnectionError {
    /// The error's text.
    pub fn message(&self) -> (message: String)
        ensures
            message@ == self@.text(),
    {
        match self {
            ConnectionError::HandshakeTimeout => "TLS handshake timeout".to_string(),
            ConnectionError::ConnectionTimeout => "Connection timeout".to_string(),
            ConnectionError::Failed(why) => why.clone(),
        }
    }
}

/// What follows from an event: another action, or the end of the connection.
#[derive(Debug)]
pub enum ConnectionProgress {
    Continue(Connection, ConnectionAction),
    Closed(Result<(), ConnectionError>),
}

/// The mathematical content of [`ConnectionProgress`].
pub enum ConnectionProgressView {
    Continue(Connection, ConnectionAction),
    Closed(Result<(), ConnectionErrorView>),
}

impl View for ConnectionProgress {
    type V = ConnectionProgressView;

    open spec fn view(&self) -> ConnectionProgressView {
        match self {
            ConnectionProgress::Continue(connection, action) => ConnectionProgressView::Continue(
                *connection,
                *action,
            ),
            ConnectionProgress::Closed(Ok(())) => ConnectionProgressView::Closed(Ok(())),
            ConnectionProgress::Closed(Err(e)) => ConnectionProgressView::Closed(Err(e@)),
        }
    }
}

/// What an event means for a connection. Requests are answered once it is
/// secure; what fails or takes too long closes it.
pub open spec fn connection_next(
    connection: Connection,
    event: ConnectionEventView,
) -> ConnectionProgressView {
    match (connection, event) {
        (Connection::Handshaking, ConnectionEventView::Done) => ConnectionProgressView::Continue(
            Connection::Serving,
            ConnectionAction::Serve { timeout_secs: CONNECTION_TIMEOUT_SECS },
        ),
        (Connection::Handshaking, ConnectionEventView::TimedOut) => ConnectionProgressView::Closed(
            Err(ConnectionErrorView::HandshakeTimeout),
        ),
        (Connection::Serving, ConnectionEventView::Done) => ConnectionProgressView::Closed(Ok(())),
        (Connection::Serving, ConnectionEventView::TimedOut) => ConnectionProgressView::Closed(
            Err(ConnectionErrorView::ConnectionTimeout),
        ),
        (_, ConnectionEventView::Failed(why)) => ConnectionProgressView::Closed(
            Err(ConnectionErrorView::Failed(why)),
        ),
    }
}

/// Begins to handle a connection.
pub fn handle_connection() -> (begun: (Connection, ConnectionAction))
    ensures
        begun == (
            Connection::Handshaking,
            ConnectionAction::Handshake { timeout_secs: HANDSHAKE_TIMEOUT_SECS },
        ),
{
    (
        Connection::Handshaking,
        ConnectionAction::Handshake { timeout_secs: HANDSHAKE_TIMEOUT_SECS },
    )
}

/// Goes on handling a connection after an event.
pub fn step_connection(connection: Connection, event: ConnectionEvent) -> (progress:
    ConnectionProgress)
    ensures
        progress@ == connection_next(connection, event@),
{
    match (connection, event) {
        (Connection::Handshaking, ConnectionEvent::Done) => ConnectionProgress::Continue(
            Connection::Serving,
            ConnectionAction::Serve { timeout_secs: CONNECTION_TIMEOUT_SECS },
        ),
        (Connection::Handshaking, ConnectionEvent::TimedOut) => ConnectionProgress::Closed(
            Err(ConnectionError::HandshakeTimeout),
        ),
        (Connection::Serving, ConnectionEvent::Done) => ConnectionProgress::Closed(Ok(())),
        (Connection::Serving, ConnectionEvent::TimedOut) => ConnectionProgress::Closed(
            Err(ConnectionError::ConnectionTimeout),
        ),
        (_, ConnectionEvent::Failed(why)) => ConnectionProgress::Closed(
            Err(ConnectionError::Failed(why)),
        ),
    }
}

/// No request is answered on a connection that was not made secure.
pub proof fn law_served_only_when_secure(connection: Connection, event: ConnectionEventView)
    requires
        connection_next(connection, event) matches ConnectionProgressView::Continue(_, action)
            && action is Serve,
    ensures
        connection is Handshaking,
        event is Done,
{
}

/// A certificate that is reported as healthy is not due for renewal.
pub proof fn law_healthy_is_not_due(metadata: MetadataView, now: UtcTime)
    requires
        metadata.wf(),
        metadata.has_renewal_threshold(),
        now.wf(),
        health_report(metadata, now).status is Healthy,
    ensures
        !metadata.renewal_due(now),
{
    let expires = metadata.expires_at;
    let nanos = expires.nanos_since(now);
    let day = SECS_PER_DAY * NANOS_PER_SEC;
    assert(nanos >= 31 * day) by (nonlinear_arith)
        requires
            day == 86_400 * 1_000_000_000int,
            nanos / day > 30 || (nanos < 0 && -((-nanos) / day) > 30),
    ;
}

/// The report is on the metadata of the certificate that the server keeps,
/// whichever directory it keeps it in.
pub proof fn law_stored_metadata_is_reported(config: LetsEncryptView)
    ensures
        config.metadata_path() == health_path(config.cert_dir),
{
}

/// The answer to a challenge stands in the directory that the certificate
/// authority's protocol prescribes, below the certificate directory, under its
/// token.
pub proof fn law_challenge_file(cert_dir: Seq<char>, token: Seq<char>)
    requires
        token.len() > 0 ==> token[0] != '/',
    ensures
        challenge_file(cert_dir, token) == paths::joined(
            cert_dir,
            ".well-known/acme-challenge/"@ + token,
        ),
{
    reveal_strlit(".well-known");
    reveal_strlit("acme-challenge");
    reveal_strlit(".well-known/acme-challenge/");
    assert(challenge_file(cert_dir, token) =~= paths::joined(
        cert_dir,
        ".well-known/acme-challenge/"@ + token,
    ));
}

/// The nanoseconds that are left from an instant to an expiry. A leap second in
/// which the expiry lies counts where the clock shows a later time of the day.
pub open spec fn nanos_left(expires: UtcTime, now: UtcTime) -> int {
    (expires.secs - now.secs) * 1_000_000_000 + expires.nanos - now.nanos - (if expires.nanos
        >= 1_000_000_000 && expires.secs as int % 86_400 < now.secs as int % 86_400 {
        1_000_000_000int
    } else {
        0
    })
}

/// The report says how many whole days are left, without the fraction of a day,
/// whether they are to come or gone; and it says so of the certificate whose
/// metadata it is.
pub proof fn law_report_counts_whole_days(metadata: MetadataView, now: UtcTime)
    requires
        metadata.wf(),
        now.wf(),
        now.nanos < 1_000_000_000,
    ensures
        ({
            let report = health_report(metadata, now);
            let days = report.days_until_expiry;
            let left = nanos_left(metadata.expires_at, now);
            let day = 86_400 * 1_000_000_000int;
            &&& left >= 0 ==> days >= 0 && days * day <= left < (days + 1) * day
            &&& left <= 0 ==> days <= 0 && (days - 1) * day < left <= days * day
            &&& report.domain == metadata.domain
            &&& report.expires_at == metadata.expires_at
        }),
{
    let left = nanos_left(metadata.expires_at, now);
    let day = 86_400 * 1_000_000_000int;
    assert(metadata.expires_at.nanos_since(now) == left);
    let days = health_report(metadata, now).days_until_expiry;
    assert(left >= 0 ==> days == left / day);
    assert(left < 0 ==> days == -((-left) / day));
    if left >= 0 {
        assert(left / day >= 0 && (left / day) * day <= left < (left / day + 1) * day)
            by (nonlinear_arith)
            requires
                left >= 0,
                day == 86_400 * 1_000_000_000int,
        ;
    } else {
        let q = (-left) / day;
        assert(q >= 0 && q * day <= -left < (q + 1) * day) by (nonlinear_arith)
            requires
                left < 0,
                day == 86_400 * 1_000_000_000int,
                q == (-left) / day,
        ;
        assert((days - 1) * day == -((q + 1) * day)) by (nonlinear_arith)
            requires
                days == -q,
        ;
        assert(days * day == -(q * day)) by (nonlinear_arith)
            requires
                days == -q,
        ;
    }
}

/// The status follows from the days that are left: more than thirty are healthy,
/// no more than seven are critical, and between them renewal is near.
pub proof fn law_status_follows_from_the_days(metadata: MetadataView, now: UtcTime)
    ensures
        ({
            let report = health_report(metadata, now);
            let days = report.days_until_expiry;
            &&& report.status.text() == "healthy"@ <==> days > 30
            &&& report.status.text() == "renewing_soon"@ <==> 7 < days <= 30
            &&& report.status.text() == "critical"@ <==> days <= 7
        }),
{
    reveal_strlit("healthy");
    reveal_strlit("renewing_soon");
    reveal_strlit("critical");
    assert("healthy"@[0] == 'h' && "renewing_soon"@[0] == 'r' && "critical"@[0] == 'c');
}

/// A certificate is healthy exactly as long as thirty-one whole days are left,
/// and critical exactly when eight whole days are not. One that has expired is
/// critical, with no day left.
pub proof fn law_expired_is_critical(metadata: MetadataView, now: UtcTime)
    requires
        metadata.wf(),
        now.wf(),
        now.nanos < 1_000_000_000,
    ensures
        ({
            let report = health_report(metadata, now);
            let left = nanos_left(metadata.expires_at, now);
            let day = 86_400 * 1_000_000_000int;
            &&& report.status is Healthy <==> left >= 31 * day
            &&& report.status is Critical <==> left < 8 * day
            &&& !metadata.expires_at.after(now) ==> report.status is Critical
                && report.days_until_expiry <= 0
        }),
{
    law_report_counts_whole_days(metadata, now);
    let days = health_report(metadata, now).days_until_expiry;
    let left = nanos_left(metadata.expires_at, now);
    let day = 86_400 * 1_000_000_000int;
    assert(days >= 31 ==> days * day >= 31 * day) by (nonlinear_arith)
        requires
            day > 0,
    ;
    assert(days <= 30 ==> (days + 1) * day <= 31 * day) by (nonlinear_arith)
        requires
            day > 0,
    ;
    assert(days >= 8 ==> days * day >= 8 * day) by (nonlinear_arith)
        requires
            day > 0,
    ;
    assert(days <= 7 ==> (days + 1) * day <= 8 * day) by (nonlinear_arith)
        requires
            day > 0,
    ;
}

/// Without metadata there is no certificate to report on, and with metadata that
/// makes no sense something is wrong with the server. A report is given of
/// metadata alone.
pub proof fn law_answers_without_a_report(stored: StoredMetadata, now: UtcTime, reply: HealthReply)
    requires
        health_answer(stored, now, reply),
    ensures
        reply is Report <==> stored is Found,
        stored is Missing || stored is Unreadable ==> (reply matches HealthReply::Unavailable(p)
            && p.status == 503 && p.body@ == "No certificate found"@),
        stored is Malformed ==> (reply matches HealthReply::Unavailable(p) && p.status == 500
            && p.body@ == "Failed to parse metadata"@),
        stored matches StoredMetadata::Found(m) ==> (reply matches HealthReply::Report(r)
            && r.domain@ == m.domain@ && r.expires_at == m.expires_at && r@ == health_report(
            m@,
            now,
        )),
{
}

/// The metadata that is reported on stands in its file, and a challenge under
/// its token.
pub proof fn law_places_of_the_answers(cert_dir: Seq<char>, token: Seq<char>)
    ensures
        health_path(cert_dir) == paths::joined(cert_dir, "cert_metadata.json"@),
        token.len() > 0 && token[0] == '/' ==> challenge_file(cert_dir, token) == token,
{
}

/// A connection has ten seconds to become secure, and then a minute to be
/// served. What went wrong is what is reported.
pub proof fn law_course_of_a_connection(why: Seq<char>)
    ensures
        connection_next(Connection::Handshaking, ConnectionEventView::Done)
            == ConnectionProgressView::Continue(
            Connection::Serving,
            ConnectionAction::Serve { timeout_secs: 60 },
        ),
        connection_next(Connection::Serving, ConnectionEventView::Done)
            == ConnectionProgressView::Closed(Ok(())),
        connection_next(Connection::Handshaking, ConnectionEventView::TimedOut) matches
            ConnectionProgressView::Closed(Err(e)) && e.text() == "TLS handshake timeout"@,
        connection_next(Connection::Serving, ConnectionEventView::TimedOut) matches
            ConnectionProgressView::Closed(Err(e)) && e.text() == "Connection timeout"@,
        connection_next(Connection::Handshaking, ConnectionEventView::Failed(why)) matches
            ConnectionProgressView::Closed(Err(e)) && e.text() == why,
        connection_next(Connection::Serving, ConnectionEventView::Failed(why)) matches
            ConnectionProgressView::Closed(Err(e)) && e.text() == why,
        HANDSHAKE_TIMEOUT_SECS == 10,
{
}

} // verus!
