//! What holds of the dates of a certificate.

use vstd::prelude::*;

use crate::clock::{given_by_clock, naive_time, rfc2822_time, UtcTime};
use crate::dates::{
    certificate_time, completed, completed_by_clock, date_field, dates_args, has_assumed_expiry,
    last_date, lossy_text, no_dates, printed_dates, CertificateDates, DateKind, DatesError,
    FoundDates,
};
use crate::text;
use crate::text_laws::{law_first_line, law_only_line, law_stripped_is_the_rest};

verus! {

/// A date that was found is the date that is given, whatever the clock says.
pub proof fn law_found_dates_are_given(
    found: FoundDates,
    issue_now: UtcTime,
    expiry_now: UtcTime,
    t: UtcTime,
)
    ensures
        found.expires == Some(t) ==> completed(found, issue_now, expiry_now).expires_at == t,
        found.issued == Some(t) ==> completed(found, issue_now, expiry_now).issued_at == t,
{
}

/// A date of issue that is missing is taken to be now, and a date of expiry
/// ninety days from now.
pub proof fn law_missing_dates_are_assumed(
    found: FoundDates,
    issue_now: UtcTime,
    expiry_now: UtcTime,
)
    requires
        expiry_now.wf(),
        has_assumed_expiry(expiry_now),
    ensures
        found.issued is None ==> completed(found, issue_now, expiry_now).issued_at == issue_now,
        found.expires is None && expiry_now.nanos < 1_000_000_000 ==> completed(
            found,
            issue_now,
            expiry_now,
        ).expires_at == (UtcTime {
            secs: (expiry_now.secs + 7_776_000) as i64,
            nanos: expiry_now.nanos,
        }),
{
}

/// Whether the assumed expiry lies in the calendar, by numbers: its end is the
/// last second of the year 262142.
pub proof fn law_assumed_expiry_exists(now: UtcTime)
    ensures
        has_assumed_expiry(now) <==> now.secs + 7_776_000 <= 8_210_266_876_799,
{
}

/// What precedes a date of one kind in a line.
pub open spec fn label(kind: DateKind) -> Seq<char> {
    match kind {
        DateKind::Issued => "notBefore="@,
        DateKind::Expires => "notAfter="@,
    }
}

/// A line tells a date exactly where it begins with the label of its kind, and
/// what follows the label is the date's text.
pub proof fn law_lines_tell_dates(line: Seq<char>, kind: DateKind, date: Seq<char>)
    ensures
        date_field(line) == Some((kind, date)) <==> line == label(kind) + date,
        date_field(line) is None <==> !label(DateKind::Issued).is_prefix_of(line) && !label(
            DateKind::Expires,
        ).is_prefix_of(line),
{
    reveal_strlit("notBefore=");
    reveal_strlit("notAfter=");
    law_stripped_is_the_rest(line, "notBefore="@, date);
    law_stripped_is_the_rest(line, "notAfter="@, date);
    if line == "notAfter="@ + date {
        assert(line[3] == 'A');
        if "notBefore="@.is_prefix_of(line) {
            assert(line.subrange(0, 10)[3] == 'B');
        }
    }
    if line == "notBefore="@ + date {
        let rest = text::stripped(line, "notBefore="@).unwrap();
        assert(rest == date);
    }
}

/// A date is read in the form of RFC 2822, and only what is not of that form in
/// the form in which openssl prints dates.
pub proof fn law_forms_of_dates(date: Seq<char>)
    ensures
        rfc2822_time(date) is Some ==> certificate_time(date) == rfc2822_time(date),
        rfc2822_time(date) is None ==> certificate_time(date) == naive_time(
            date,
            "%b %e %T %Y GMT"@,
        ),
{
}

/// Whether a line tells a date of one kind that can be read.
pub open spec fn tells(line: Seq<char>, kind: DateKind) -> bool {
    exists|date: Seq<char>|
        line == #[trigger] (label(kind) + date) && certificate_time(date) is Some
}

/// What a line tells is what follows its label.
proof fn lemma_tells(line: Seq<char>, kind: DateKind)
    ensures
        tells(line, kind) <==> (date_field(line) matches Some((k, date)) && k == kind
            && certificate_time(date) is Some),
{
    if tells(line, kind) {
        let date = choose|date: Seq<char>|
            line == #[trigger] (label(kind) + date) && certificate_time(date) is Some;
        law_lines_tell_dates(line, kind, date);
    }
    match date_field(line) {
        Some((k, date)) => {
            law_lines_tell_dates(line, k, date);
        },
        None => {},
    }
}

/// Later lines come before earlier ones.
proof fn lemma_last_date_of_both(a: Seq<Seq<char>>, b: Seq<Seq<char>>, kind: DateKind)
    ensures
        last_date(a + b, kind) == match last_date(b, kind) {
            Some(t) => Some(t),
            None => last_date(a, kind),
        },
    decreases b.len(),
{
    if b.len() == 0 {
        assert(a + b == a);
    } else {
        lemma_last_date_of_both(a, b.drop_last(), kind);
        assert((a + b).drop_last() == a + b.drop_last());
        assert((a + b).last() == b.last());
    }
}

/// Of several lines that tell a date of one kind which can be read, the last
/// counts.
pub proof fn law_last_date_counts(
    before: Seq<Seq<char>>,
    date: Seq<char>,
    after: Seq<Seq<char>>,
    kind: DateKind,
)
    requires
        certificate_time(date) is Some,
        forall|i: int| 0 <= i < after.len() ==> !tells(#[trigger] after[i], kind),
    ensures
        last_date(before + seq![label(kind) + date] + after, kind) == certificate_time(date),
{
    let line = label(kind) + date;
    law_no_date(after, kind);
    lemma_last_date_of_both(before + seq![line], after, kind);
    lemma_last_date_of_both(before, seq![line], kind);
    law_lines_tell_dates(line, kind, date);
    assert(seq![line].last() == line);
}

/// Where no line tells a date of a kind that can be read, none is found.
pub proof fn law_no_date(lines: Seq<Seq<char>>, kind: DateKind)
    requires
        forall|i: int| 0 <= i < lines.len() ==> !tells(#[trigger] lines[i], kind),
    ensures
        last_date(lines, kind) is None,
    decreases lines.len(),
{
    if lines.len() > 0 {
        let init = lines.drop_last();
        assert forall|i: int| 0 <= i < init.len() implies !tells(#[trigger] init[i], kind) by {
            assert(init[i] == lines[i]);
        }
        law_no_date(init, kind);
        assert(!tells(lines[lines.len() - 1], kind));
        lemma_tells(lines.last(), kind);
    }
}

/// What openssl printed of a certificate's dates is what is given, to the
/// nanosecond and whatever the clock says. What it did not print comes from the
/// clock: now for the issue, and ninety days from now for the expiry.
pub proof fn law_printed_dates_are_given(
    bytes: Seq<u8>,
    found: FoundDates,
    dates: CertificateDates,
)
    requires
        printed_dates(bytes, found),
        completed_by_clock(found, Some(dates)),
    ensures
        ({
            let lines = text::lines(lossy_text(bytes));
            &&& last_date(lines, DateKind::Expires) matches Some(t) ==> dates.expires_at@ == t
            &&& last_date(lines, DateKind::Issued) matches Some(t) ==> dates.issued_at@ == t
            &&& last_date(lines, DateKind::Expires) is None ==> exists|now: UtcTime| #[trigger]
                given_by_clock(now) && dates.expires_at == (UtcTime {
                    secs: (now.secs + 7_776_000) as i64,
                    nanos: now.nanos,
                }) && now.secs + 7_776_000 <= 8_210_266_876_799
            &&& last_date(lines, DateKind::Issued) is None ==> given_by_clock(dates.issued_at)
        }),
{
}

/// Dates that were printed are given without fail.
pub proof fn law_printed_expiry_is_never_missed(
    bytes: Seq<u8>,
    found: FoundDates,
    dates: Option<CertificateDates>,
)
    requires
        printed_dates(bytes, found),
        completed_by_clock(found, dates),
        last_date(text::lines(lossy_text(bytes)), DateKind::Expires) is Some,
    ensures
        dates is Some,
{
}

/// Where the lookup of dates failed, the certificate is taken to be issued now
/// and to expire ninety days from now.
pub proof fn law_dates_without_a_lookup(dates: CertificateDates)
    requires
        completed_by_clock(no_dates(), Some(dates)),
    ensures
        given_by_clock(dates.issued_at),
        exists|now: UtcTime| #[trigger]
            given_by_clock(now) && dates.expires_at == (UtcTime {
                secs: (now.secs + 7_776_000) as i64,
                nanos: now.nanos,
            }) && now.secs + 7_776_000 <= 8_210_266_876_799,
{
}

/// A printout of the form of openssl's, with a line for each date, gives these
/// two dates.
pub proof fn law_printout_of_both_dates(
    bytes: Seq<u8>,
    issued: Seq<char>,
    expires: Seq<char>,
    found: FoundDates,
    dates: Option<CertificateDates>,
)
    requires
        lossy_text(bytes) == ("notBefore="@ + issued) + seq!['\n'] + (("notAfter="@ + expires)
            + seq!['\n'] + Seq::<char>::empty()),
        !issued.contains('\n'),
        !expires.contains('\n'),
        issued.len() > 0 && issued.last() != '\r',
        expires.len() > 0 && expires.last() != '\r',
        certificate_time(issued) is Some,
        certificate_time(expires) is Some,
        printed_dates(bytes, found),
        completed_by_clock(found, dates),
    ensures
        dates matches Some(d) && certificate_time(issued) == Some(d.issued_at@) && certificate_time(
            expires,
        ) == Some(d.expires_at@),
{
    reveal_strlit("notBefore=");
    reveal_strlit("notAfter=");
    let first = "notBefore="@ + issued;
    let second = "notAfter="@ + expires;
    assert(first.last() == issued.last() && second.last() == expires.last());
    lemma_no_line_feed("notBefore="@, issued);
    lemma_no_line_feed("notAfter="@, expires);
    let nothing = Seq::<char>::empty();
    law_first_line(first, second + seq!['\n'] + nothing);
    law_first_line(second, nothing);
    law_only_line(nothing);
    let lines = text::lines(lossy_text(bytes));
    let none = Seq::<Seq<char>>::empty();
    assert(lines == none + seq![first] + seq![second]);
    assert(lines == seq![first] + seq![second] + none);
    law_last_date_counts(seq![first], expires, none, DateKind::Expires);
    assert(!tells(second, DateKind::Issued)) by {
        lemma_tells(second, DateKind::Issued);
        law_lines_tell_dates(second, DateKind::Expires, expires);
    }
    law_last_date_counts(none, issued, seq![second], DateKind::Issued);
    let d = dates.unwrap();
    law_printed_expiry_is_never_missed(bytes, found, dates);
    law_printed_dates_are_given(bytes, found, d);
}

/// A line feed in neither of two texts is in neither place of both.
proof fn lemma_no_line_feed(a: Seq<char>, b: Seq<char>)
    requires
        !a.contains('\n'),
        !b.contains('\n'),
    ensures
        !(a + b).contains('\n'),
{
    if (a + b).contains('\n') {
        let i = choose|i: int| 0 <= i < (a + b).len() && (a + b)[i] == '\n';
        if i < a.len() {
            assert(a.contains(a[i]));
        } else {
            assert(b.contains(b[i - a.len()]));
        }
    }
}

/// The program is told to look at the certificate in the file, to print no
/// certificate, and to print its dates.
pub proof fn law_arguments_of_openssl(cert_path: Seq<char>)
    ensures
        dates_args(cert_path).len() == 5,
        dates_args(cert_path)[0] == "x509"@,
        dates_args(cert_path)[1] == "-in"@,
        dates_args(cert_path)[2] == cert_path,
        dates_args(cert_path)[3] == "-noout"@,
        dates_args(cert_path)[4] == "-dates"@,
{
}

/// A lookup that failed says whether the program was not run or reported
/// failure.
pub proof fn law_texts_of_failed_lookups()
    ensures
        DatesError::NotRun.text() == "failed to run openssl to parse certificate dates"@,
        DatesError::ExitedNonZero.text() == "openssl exited non-zero parsing cert"@,
{
}

/// A date that cannot be read changes nothing, and one that can takes the place
/// of the earlier one of its kind alone.
pub proof fn law_noted_dates(found: FoundDates, t: UtcTime)
    ensures
        found.noted(DateKind::Issued, None) == found,
        found.noted(DateKind::Expires, None) == found,
        found.noted(DateKind::Issued, Some(t)).issued == Some(t),
        found.noted(DateKind::Issued, Some(t)).expires == found.expires,
        found.noted(DateKind::Expires, Some(t)).expires == Some(t),
        found.noted(DateKind::Expires, Some(t)).issued == found.issued,
{
}

} // verus!
