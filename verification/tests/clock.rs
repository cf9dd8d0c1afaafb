use chrono::{DateTime, TimeZone, Utc};
use http_server::acme::{CertificateMetadata, LetsEncryptConfig, StoredMetadata};
use http_server::clock::{UtcTime, MAX_SECS, MIN_SECS};
use http_server::dates::{complete_dates, parse_certificate_time, FoundDates};
use http_server::server::{cert_health_at, HealthReply};

const DAY: i64 = 86_400;
const SECOND: i128 = 1_000_000_000;

fn time(secs: i64, nanos: u32) -> UtcTime {
    UtcTime::new(secs, nanos).unwrap()
}

fn metadata(expires_at: UtcTime) -> CertificateMetadata {
    CertificateMetadata {
        domain: "example.com".to_string(),
        issued_at: time(0, 0),
        expires_at,
        cert_path: "certs/cert.pem".to_string(),
        key_path: "certs/key.pem".to_string(),
    }
}

fn config() -> LetsEncryptConfig {
    LetsEncryptConfig::new("example.com".to_string(), "a@b.c".to_string(), "certs/", true)
}

fn days(expires: UtcTime, now: UtcTime) -> i64 {
    match cert_health_at(StoredMetadata::Found(metadata(expires)), &now) {
        HealthReply::Report(report) => report.days_until_expiry,
        HealthReply::Unavailable(_) => panic!("no report"),
    }
}

/// The whole days between two instants, counted by hand.
fn counted_days(a: UtcTime, b: UtcTime) -> i64 {
    let (day_a, day_b) = (a.secs.rem_euclid(DAY), b.secs.rem_euclid(DAY));
    let leap: i128 = if day_a > day_b && b.nanos >= 1_000_000_000 {
        1
    } else if day_a < day_b && a.nanos >= 1_000_000_000 {
        -1
    } else {
        0
    };
    let nanos = (i128::from(a.secs - b.secs) + leap) * SECOND + i128::from(a.nanos)
        - i128::from(b.nanos);
    (nanos / (i128::from(DAY) * SECOND)) as i64
}

fn samples() -> Vec<UtcTime> {
    let mut out = Vec::new();
    for secs in [
        MIN_SECS,
        MIN_SECS + 59,
        -31 * DAY,
        -1,
        0,
        59,
        60,
        DAY - 1,
        DAY,
        DAY + 59,
        30 * DAY,
        31 * DAY - 1,
        31 * DAY,
        1_341_100_799,
        1_483_228_799,
        1_700_000_000,
        MAX_SECS - 91 * DAY,
        MAX_SECS,
    ] {
        for nanos in [0u32, 1, 999_999_999, 1_000_000_000, 1_500_000_000, 1_999_999_999] {
            if let Some(t) = UtcTime::new(secs, nanos) {
                out.push(t);
            }
        }
    }
    out
}

#[test]
fn the_calendar_is_that_of_chrono() {
    assert_eq!(MIN_SECS, DateTime::<Utc>::MIN_UTC.timestamp());
    assert_eq!(MAX_SECS, DateTime::<Utc>::MAX_UTC.timestamp());
}

#[test]
fn instants_are_those_of_chrono() {
    for secs in [
        i64::MIN, MIN_SECS - 1, MIN_SECS, MIN_SECS + 59, -61, -60, -1, 0, 1, 58, 59, 60, 119, 1_700_000_000,
        MAX_SECS, MAX_SECS + 1, i64::MAX,
    ] {
        for nanos in [0u32, 999_999_999, 1_000_000_000, 1_999_999_999, 2_000_000_000, u32::MAX] {
            let expected = DateTime::from_timestamp(secs, nanos).is_some();
            assert_eq!(UtcTime::new(secs, nanos).is_some(), expected, "{} {}", secs, nanos);
        }
    }
}

#[test]
fn a_leap_second_belongs_to_the_end_of_a_minute() {
    assert!(UtcTime::new(59, 1_000_000_000).is_some());
    assert!(UtcTime::new(58, 1_000_000_000).is_none());
    assert!(UtcTime::new(-1, 1_000_000_000).is_some());
}

#[test]
fn later_is_later_for_chrono_too() {
    for a in samples() {
        for b in samples() {
            let x = DateTime::from_timestamp(a.secs, a.nanos).unwrap();
            let y = DateTime::from_timestamp(b.secs, b.nanos).unwrap();
            assert_eq!(a.is_after(&b), x > y);
        }
    }
}

#[test]
fn whole_days_are_counted_towards_zero() {
    for a in samples() {
        for b in samples() {
            assert_eq!(days(a, b), counted_days(a, b), "{:?} {:?}", a, b);
        }
    }
    assert_eq!(days(time(31 * DAY, 0), time(0, 0)), 31);
    assert_eq!(days(time(31 * DAY, 0), time(0, 1)), 30);
    assert_eq!(days(time(0, 0), time(DAY - 1, 0)), 0);
    assert_eq!(days(time(0, 0), time(DAY, 0)), -1);
}

#[test]
fn renewal_begins_thirty_days_before_expiry() {
    for expires in samples() {
        let m = metadata(expires);
        let leap = i64::from(expires.nanos >= 1_000_000_000);
        let secs = expires.secs + leap - 30 * DAY;
        assert_eq!(m.has_renewal_threshold(), secs >= MIN_SECS);
        if !m.has_renewal_threshold() {
            continue;
        }
        let nanos = expires.nanos % 1_000_000_000;
        let threshold = time(secs, nanos);
        assert!(!config().needs_renewal_at(&m, &threshold));
        assert!(config().needs_renewal_at(&m, &later_by_one(secs, nanos)));
        assert!(config().needs_renewal_at(&m, &time(secs + 1, 0)));
        if secs > MIN_SECS {
            assert!(!config().needs_renewal_at(&m, &time(secs - 1, 999_999_999)));
        }
    }
}

/// The instant one nanosecond later.
fn later_by_one(secs: i64, nanos: u32) -> UtcTime {
    if nanos == 999_999_999 {
        time(secs + 1, 0)
    } else {
        time(secs, nanos + 1)
    }
}

#[test]
fn the_assumed_time_is_ninety_days() {
    for now in samples() {
        let secs = now.secs + 90 * DAY;
        if secs > MAX_SECS {
            continue;
        }
        let found = FoundDates { issued: None, expires: None };
        let dates = complete_dates(found, &time(7, 8), &now);
        assert_eq!(dates.expires_at, time(secs, now.nanos % 1_000_000_000));
        assert_eq!(dates.issued_at, time(7, 8));
    }
}

#[test]
fn dates_that_were_found_are_kept() {
    let found = FoundDates { issued: Some(time(1, 2)), expires: Some(time(3, 4)) };
    let dates = complete_dates(found, &time(7, 8), &time(9, 10));
    assert_eq!(dates.issued_at, time(1, 2));
    assert_eq!(dates.expires_at, time(3, 4));
}

#[test]
fn rfc_2822_dates_are_read() {
    let t = parse_certificate_time("Wed, 18 Feb 2015 23:16:09 GMT").unwrap();
    let expected = Utc.with_ymd_and_hms(2015, 2, 18, 23, 16, 9).unwrap();
    assert_eq!(t, time(expected.timestamp(), 0));
    let t = parse_certificate_time("18 Feb 2015 23:16:09 +0100").unwrap();
    assert_eq!(t, time(expected.timestamp() - 3600, 0));
    let t = parse_certificate_time("Sat, 30 Jun 2012 23:59:60 +0000").unwrap();
    assert_eq!(t, time(1_341_100_799, 1_000_000_000));
    let t = parse_certificate_time("Sat, 30 Jun 2012 23:59:60 -0130").unwrap();
    assert_eq!(t, time(1_341_100_799 + 5400, 1_000_000_000));
    assert_eq!(parse_certificate_time("yesterday"), None);
    assert_eq!(parse_certificate_time(""), None);
}

#[test]
fn dates_in_the_form_of_openssl_are_read() {
    for (date, y, mo, d, h, mi, s) in [
        ("Jan  1 00:00:00 2025 GMT", 2025, 1, 1, 0, 0, 0),
        ("Dec 31 23:59:59 2025 GMT", 2025, 12, 31, 23, 59, 59),
        ("Feb 29 12:34:56 2024 GMT", 2024, 2, 29, 12, 34, 56),
    ] {
        let expected = Utc.with_ymd_and_hms(y, mo, d, h, mi, s).unwrap();
        assert_eq!(parse_certificate_time(date), Some(time(expected.timestamp(), 0)));
    }
    let leap = parse_certificate_time("Jun 30 23:59:60 2012 GMT").unwrap();
    assert_eq!(leap, time(1_341_100_799, 1_000_000_000));
    for date in [
        "Feb 30 00:00:00 2024 GMT",
        "Jan 15 12:00:00 2024 UTC",
        "Jan 15 12:00:00 2024 +0000",
        "Jan 15 12:00:00 2024 ",
        "Jan 15 12:00 2024 GMT",
    ] {
        assert_eq!(parse_certificate_time(date), None);
    }
}

#[test]
fn an_earlier_expiry_is_due_as_well() {
    for later in samples() {
        for earlier in samples() {
            let (a, b) = (metadata(earlier), metadata(later));
            if earlier.is_after(&later) || !a.has_renewal_threshold() || !b.has_renewal_threshold() {
                continue;
            }
            for now in samples() {
                if config().needs_renewal_at(&b, &now) {
                    let leap = earlier.nanos >= 1_000_000_000
                        && earlier.secs + 1 == later.secs
                        && earlier.nanos - 1_000_000_000 > later.nanos;
                    assert!(leap || config().needs_renewal_at(&a, &now));
                }
            }
        }
    }
}

#[test]
fn an_expiry_in_a_leap_second_may_be_due_after_a_later_one() {
    let earlier = metadata(time(100 * DAY - 1, 1_500_000_000));
    let later = metadata(time(100 * DAY, 200_000_000));
    let now = time(70 * DAY, 300_000_000);
    assert!(config().needs_renewal_at(&later, &now));
    assert!(!config().needs_renewal_at(&earlier, &now));
}
