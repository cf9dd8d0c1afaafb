//! The dates of a certificate, from what `openssl x509 -noout -dates` prints.

use vstd::prelude::*;
use vstd::string::*;

use crate::clock::{
    clock_reading, given_by_clock, naive_time, rfc2822_time, time_parts, UtcTime, MAX_SECS,
    OPENSSL_TIME_FORMAT,
};
use crate::text;

verus! {

/// How many days a certificate is taken to be valid where its expiry is not
/// known.
pub const ASSUMED_DAYS: u32 = 90;

/// What precedes the date of issue.
pub const NOT_BEFORE: &'static str = "notBefore=";

/// What precedes the date of expiry.
pub const NOT_AFTER: &'static str = "notAfter=";

/// What a line of dates tells.
#[derive(Clone, Copy, Debug, PartialEq, Eq, Structural)]
pub enum DateKind {
    /// When the certificate was issued.
    Issued,
    /// When the certificate expires.
    Expires,
}

/// What a line tells, and the text of its date.
pub open spec fn date_field(line: Seq<char>) -> Option<(DateKind, Seq<char>)> {
    match text::stripped(line, NOT_BEFORE@) {
        Some(date) => Some((DateKind::Issued, date)),
        None => match text::stripped(line, NOT_AFTER@) {
            Some(date) => Some((DateKind::Expires, date)),
            None => None,
        },
    }
}

/// Splits a line into what it tells and the text of its date.
pub fn split_date_field(line: &str) -> (field: Option<(DateKind, &str)>)
    ensures
        match field {
            Some((kind, date)) => date_field(line@) == Some((kind, date@)),
            None => date_field(line@) is None,
        },
{
    match text::strip_prefix(line, NOT_BEFORE) {
        Some(date) => Some((DateKind::Issued, date)),
        None => match text::strip_prefix(line, NOT_AFTER) {
            Some(date) => Some((DateKind::Expires, date)),
            None => None,
        },
    }
}

/// The instant that the text of a date denotes, if it denotes one: in the form
/// of RFC 2822, or else in the form in which openssl prints dates.
pub open spec fn certificate_time(date: Seq<char>) -> Option<(i64, u32)> {
    match rfc2822_time(date) {
        Some(t) => Some(t),
        None => naive_time(date, OPENSSL_TIME_FORMAT@),
    }
}

/// Reads the text of a date: in the form of RFC 2822, or else in the form in
/// which openssl prints dates.
pub fn parse_certificate_time(date: &str) -> (t: Option<UtcTime>)
    ensures
        time_parts(t) == certificate_time(date@),
        t matches Some(v) ==> v.wf(),
{
    match crate::clock::parse_rfc2822(date) {
        Some(t) => Some(t),
        None => crate::clock::parse_naive(date, OPENSSL_TIME_FORMAT),
    }
}

/// The dates that were found so far.
#[derive(Clone, Copy, Debug, PartialEq, Eq, Structural)]
pub struct FoundDates {
    pub issued: Option<UtcTime>,
    pub expires: Option<UtcTime>,
}

impl FoundDates {
    /// Whether the dates that were found are instants of the calendar.
    pub open spec fn wf(self) -> bool {
        &&& self.issued matches Some(t) ==> t.wf()
        &&& self.expires matches Some(t) ==> t.wf()
    }

    /// The dates with one more: a text that denotes no instant changes nothing,
    /// and any other replaces what was found before.
    pub open spec fn noted(self, kind: DateKind, t: Option<UtcTime>) -> FoundDates {
        match (kind, t) {
            (DateKind::Issued, Some(v)) => FoundDates { issued: Some(v), ..self },
            (DateKind::Expires, Some(v)) => FoundDates { expires: Some(v), ..self },
            (_, None) => self,
        }
    }

    /// Notes one more date.
    pub fn note(self, kind: DateKind, t: Option<UtcTime>) -> (found: FoundDates)
        ensures
            found == self.noted(kind, t),
    {
        match t {
            Some(v) => match kind {
                DateKind::Issued => FoundDates { issued: Some(v), expires: self.expires },
                DateKind::Expires => FoundDates { issued: self.issued, expires: Some(v) },
            },
            None => self,
        }
    }
}

/// The last date of one kind that lines tell.
pub open spec fn last_date(lines: Seq<Seq<char>>, kind: DateKind) -> Option<(i64, u32)>
    decreases lines.len(),
{
    if lines.len() == 0 {
        None
    } else {
        let earlier = last_date(lines.drop_last(), kind);
        match date_field(lines.last()) {
            Some((k, date)) => if k == kind && certificate_time(date) is Some {
                certificate_time(date)
            } else {
                earlier
            },
            None => earlier,
        }
    }
}

/// Finds the dates in a printout: of each kind the last that can be read.
pub fn scan_dates(printout: &str) -> (found: FoundDates)
    ensures
        found.wf(),
        time_parts(found.issued) == last_date(text::lines(printout@), DateKind::Issued),
        time_parts(found.expires) == last_date(text::lines(printout@), DateKind::Expires),
{
    let lines: Vec<String> = text::split_lines(printout);
    let ghost all = text::lines(printout@);
    let mut found: FoundDates = FoundDates { issued: None, expires: None };
    let mut i: usize = 0;
    assert(all.take(0) == Seq::<Seq<char>>::empty());
    while i < lines.len()
        invariant
            text::views(lines@) == all,
            i <= lines@.len(),
            found.wf(),
            time_parts(found.issued) == last_date(all.take(i as int), DateKind::Issued),
            time_parts(found.expires) == last_date(all.take(i as int), DateKind::Expires),
        decreases lines@.len() - i,
    {
        proof {
            assert(all.take(i + 1).drop_last() == all.take(i as int));
            assert(all.take(i + 1).last() == text::views(lines@)[i as int]);
        }
        match split_date_field(lines[i].as_str()) {
            Some((kind, date)) => {
                found = found.note(kind, parse_certificate_time(date));
            },
            None => {},
        }
        i += 1;
    }
    assert(all.take(i as int) == all);
    found
}

/// The program that knows the dates of a certificate.
pub const OPENSSL: &'static str = "openssl";

/// What the program is to be told so that it prints the dates of the
/// certificate in a file.
pub open spec fn dates_args(cert_path: Seq<char>) -> Seq<Seq<char>> {
    seq!["x509"@, "-in"@, cert_path, "-noout"@, "-dates"@]
}

/// The arguments with which [`OPENSSL`] prints the dates of the certificate in
/// a file.
pub fn openssl_args(cert_path: &str) -> (args: Vec<String>)
    ensures
        text::views(args@) == dates_args(cert_path@),
{
    let mut args: Vec<String> = Vec::new();
    args.push("x509".to_string());
    args.push("-in".to_string());
    args.push(cert_path.to_string());
    args.push("-noout".to_string());
    args.push("-dates".to_string());
    assert(text::views(args@) =~= dates_args(cert_path@));
    args
}

/// How a run of openssl on a certificate ended.
#[derive(Debug)]
pub enum OpensslRun {
    /// The program could not be run.
    NotRun,
    /// The program reported failure.
    ExitedNonZero,
    /// The program printed this.
    Printed(Vec<u8>),
}

/// Why a certificate's dates could not be looked up.
#[derive(Clone, Copy, Debug, PartialEq, Eq, Structural)]
pub enum DatesError {
    NotRun,
    ExitedNonZero,
}

impl DatesError {
    /// The error's text.
    pub open spec fn text(self) -> Seq<char> {
        match self {
            DatesError::NotRun => "failed to run openssl to parse certificate dates"@,
            DatesError::ExitedNonZero => "openssl exited non-zero parsing cert"@,
        }
    }

    /// The error's text.
    pub fn message(&self) -> (message: String)
        ensures
            message@ == self.text(),
    {
        match self {
            DatesError::NotRun => "failed to run openssl to parse certificate dates".to_string(),
            DatesError::ExitedNonZero => "openssl exited non-zero parsing cert".to_string(),
        }
    }
}

/// The text that `String::from_utf8_lossy` makes of bytes.
pub uninterp spec fn lossy_text(bytes: Seq<u8>) -> Seq<char>;

/// Makes text of bytes with `String::from_utf8_lossy`. Bytes that are UTF-8
/// keep their text; of others only that equal bytes give equal texts is said.
#[verifier::external_body]
fn decode_lossy(bytes: &Vec<u8>) -> (decoded: String)
    ensures
        decoded@ == lossy_text(bytes@),
        vstd::utf8::valid_utf8(bytes@) ==> decoded@ == vstd::utf8::decode_utf8(bytes@),
{
    String::from_utf8_lossy(bytes).into_owned()
}

/// When a certificate expires and when it was issued.
#[derive(Clone, Copy, Debug, PartialEq, Eq, Structural)]
pub struct CertificateDates {
    pub expires_at: UtcTime,
    pub issued_at: UtcTime,
}

impl CertificateDates {
    /// Whether both dates are instants of the calendar.
    pub open spec fn wf(self) -> bool {
        self.expires_at.wf() && self.issued_at.wf()
    }
}

/// No dates.
pub open spec fn no_dates() -> FoundDates {
    FoundDates { issued: None, expires: None }
}

/// Whether the assumed time from an instant on ends within the calendar.
pub open spec fn has_assumed_expiry(now: UtcTime) -> bool {
    now.secs_days_after(ASSUMED_DAYS as int) <= MAX_SECS
}

/// The dates that were found. In place of a missing date of issue stands
/// `issue_now`, and in place of a missing date of expiry the end of the
/// assumed time from `expiry_now` on.
pub open spec fn completed(
    found: FoundDates,
    issue_now: UtcTime,
    expiry_now: UtcTime,
) -> CertificateDates {
    CertificateDates {
        expires_at: match found.expires {
            Some(t) => t,
            None => expiry_now.days_after(ASSUMED_DAYS as int),
        },
        issued_at: match found.issued {
            Some(t) => t,
            None => issue_now,
        },
    }
}

/// Completes the dates that were found by two instants, of which each bears on
/// a missing date only.
pub fn complete_dates(
    found: FoundDates,
    issue_now: &UtcTime,
    expiry_now: &UtcTime,
) -> (dates: CertificateDates)
    requires
        found.wf(),
        issue_now.wf(),
        expiry_now.wf(),
        found.expires is None ==> has_assumed_expiry(*expiry_now),
    ensures
        dates == completed(found, *issue_now, *expiry_now),
        dates.wf(),
{
    let expires_at: UtcTime = match found.expires {
        Some(t) => t,
        None => crate::clock::plus_days(expiry_now, ASSUMED_DAYS),
    };
    let issued_at: UtcTime = match found.issued {
        Some(t) => t,
        None => *issue_now,
    };
    CertificateDates { expires_at, issued_at }
}

/// Whether dates are those that were found, completed by readings of the
/// clock, which gave one for each date that is missing; there are none only
/// where the date of expiry is missing and the assumed time runs beyond the
/// calendar.
pub open spec fn completed_by_clock(found: FoundDates, dates: Option<CertificateDates>) -> bool {
    match dates {
        Some(d) => exists|issue_now: UtcTime, expiry_now: UtcTime|
            #![trigger clock_reading(issue_now), clock_reading(expiry_now)]
            {
                &&& clock_reading(issue_now)
                &&& clock_reading(expiry_now)
                &&& found.issued is None ==> given_by_clock(issue_now)
                &&& found.expires is None ==> given_by_clock(expiry_now)
                &&& found.expires is None ==> has_assumed_expiry(expiry_now)
                &&& d == completed(found, issue_now, expiry_now)
            },
        None => {
            &&& found.expires is None
            &&& exists|now: UtcTime| #[trigger]
                given_by_clock(now) && clock_reading(now) && !has_assumed_expiry(now)
        },
    }
}

/// Completes the dates that were found by the clock, which is read only for a
/// date that is missing.
fn complete_by_clock(found: FoundDates) -> (dates: Option<CertificateDates>)
    requires
        found.wf(),
    ensures
        completed_by_clock(found, dates),
        dates matches Some(d) ==> d.wf(),
{
    let issue_now: UtcTime = match found.issued {
        Some(t) => t,
        None => crate::clock::utc_now(),
    };
    let expiry_now: UtcTime = match found.expires {
        Some(t) => t,
        None => crate::clock::utc_now(),
    };
    if found.expires.is_none() && expiry_now.secs > MAX_SECS - 86_400 * ASSUMED_DAYS as i64 {
        return None;
    }
    proof {
        let any = UtcTime { secs: 0, nanos: 0 };
        let read_issue = if found.issued is None { issue_now } else { any };
        let read_expiry = if found.expires is None { expiry_now } else { any };
        assert(clock_reading(read_issue) && clock_reading(read_expiry));
    }
    Some(complete_dates(found, &issue_now, &expiry_now))
}

/// Whether dates are those that stand in a printout of openssl.
pub open spec fn printed_dates(bytes: Seq<u8>, found: FoundDates) -> bool {
    let lines = text::lines(lossy_text(bytes));
    &&& found.wf()
    &&& time_parts(found.issued) == last_date(lines, DateKind::Issued)
    &&& time_parts(found.expires) == last_date(lines, DateKind::Expires)
}

/// The dates of a certificate, from a run of openssl on it. A printout in UTF-8
/// is read as it stands, and what it does not tell is completed by the clock.
pub fn extract_dates_from_pem(run: &OpensslRun) -> (dates: Result<
    Option<CertificateDates>,
    DatesError,
>)
    ensures
        match *run {
            OpensslRun::NotRun => dates matches Err(e) && e == DatesError::NotRun,
            OpensslRun::ExitedNonZero => dates matches Err(e) && e == DatesError::ExitedNonZero,
            OpensslRun::Printed(bytes) => {
                &&& dates matches Ok(d)
                &&& exists|found: FoundDates| #[trigger]
                    printed_dates(bytes@, found) && completed_by_clock(found, d)
            },
        },
        *run matches OpensslRun::Printed(bytes) ==> (vstd::utf8::valid_utf8(bytes@) ==> lossy_text(
            bytes@,
        ) == vstd::utf8::decode_utf8(bytes@)),
        dates matches Ok(Some(d)) ==> d.wf(),
{
    match run {
        OpensslRun::NotRun => Err(DatesError::NotRun),
        OpensslRun::ExitedNonZero => Err(DatesError::ExitedNonZero),
        OpensslRun::Printed(bytes) => {
            let printout: String = decode_lossy(bytes);
            let found: FoundDates = scan_dates(printout.as_str());
            assert(printed_dates(bytes@, found));
            Ok(complete_by_clock(found))
        },
    }
}

/// The dates that were extracted, or, where that failed, dates by the clock
/// alone.
pub fn certificate_dates(extracted: Result<Option<CertificateDates>, DatesError>) -> (dates: Option<
    CertificateDates,
>)
    requires
        extracted matches Ok(Some(d)) ==> d.wf(),
    ensures
        match extracted {
            Ok(d) => dates == d,
            Err(_) => completed_by_clock(no_dates(), dates),
        },
        dates matches Some(d) ==> d.wf(),
{
    match extracted {
        Ok(d) => d,
        Err(_) => complete_by_clock(FoundDates { issued: None, expires: None }),
    }
}

} // verus!
