use http_server::acme::{CertificateMetadata, LetsEncryptConfig, StoredMetadata};
use http_server::clock::UtcTime;
use http_server::dates::{
    certificate_dates, extract_dates_from_pem, openssl_args, scan_dates, split_date_field,
    CertificateDates, DateKind, DatesError, FoundDates, OpensslRun, OPENSSL,
};
use http_server::provision::{
    pair_is_new, Action, Attempt, AttemptProgress, Event, FileStamp, PairStamp, Phase, Progress,
    Provision, ProvisionError, ProvisionFailure,
};

fn config() -> LetsEncryptConfig {
    LetsEncryptConfig::new(
        "example.com".to_string(),
        "admin@example.com".to_string(),
        "certs/",
        false,
    )
}

fn time(secs: i64) -> UtcTime {
    UtcTime::new(secs, 0).unwrap()
}

fn metadata() -> CertificateMetadata {
    CertificateMetadata {
        domain: "example.com".to_string(),
        issued_at: time(1),
        expires_at: time(2),
        cert_path: "certs/cert.pem".to_string(),
        key_path: "certs/key.pem".to_string(),
    }
}

fn same(a: &CertificateMetadata, b: &CertificateMetadata) -> bool {
    a.domain == b.domain
        && a.issued_at == b.issued_at
        && a.expires_at == b.expires_at
        && a.cert_path == b.cert_path
        && a.key_path == b.key_path
}

#[test]
fn a_configuration_has_its_parts() {
    let c = LetsEncryptConfig::new("d".to_string(), "e".to_string(), "dir", true);
    assert_eq!(c.domain, "d");
    assert_eq!(c.email, "e");
    assert_eq!(c.cert_dir, "dir");
    assert!(c.use_staging);
    let copy = c.clone();
    assert_eq!(copy.domain, "d");
    assert_eq!(copy.cert_dir, "dir");
}

#[test]
fn files_stand_in_the_certificate_directory() {
    let c = config();
    assert_eq!(c.metadata_path(), "certs/cert_metadata.json");
    assert_eq!(c.local_cert(), "certs/cert.pem");
    assert_eq!(c.local_key(), "certs/key.pem");
    assert_eq!(c.next_cert(), "certs/cert.pem.new");
    assert_eq!(c.next_key(), "certs/key.pem.new");
    assert_eq!(c.live_cert(), "/etc/letsencrypt/live/example.com/fullchain.pem");
    assert_eq!(c.live_key(), "/etc/letsencrypt/live/example.com/privkey.pem");
    let bare = LetsEncryptConfig::new("d".to_string(), "e".to_string(), "dir", true);
    assert_eq!(bare.metadata_path(), "dir/cert_metadata.json");
}

#[test]
fn metadata_is_loaded_where_it_was_found() {
    let c = config();
    let loaded = c.load_metadata(StoredMetadata::Found(metadata())).unwrap();
    assert!(same(&loaded, &metadata()));
    assert!(c.load_metadata(StoredMetadata::Missing).is_none());
    assert!(c.load_metadata(StoredMetadata::Unreadable("io".to_string())).is_none());
    assert!(c.load_metadata(StoredMetadata::Malformed("json".to_string())).is_none());
}

#[test]
fn metadata_is_saved_where_it_is_loaded() {
    let plan = config().save_metadata(&metadata());
    assert_eq!(plan.dir, "certs/");
    assert_eq!(plan.path, config().metadata_path());
    assert!(same(&plan.metadata, &metadata()));
}

#[test]
fn a_certificate_of_long_ago_needs_renewal() {
    assert!(config().needs_renewal(&metadata()));
}

#[test]
fn a_certificate_of_the_far_future_needs_none() {
    let mut m = metadata();
    m.expires_at = time(8_000_000_000_000);
    assert!(!config().needs_renewal(&m));
}

#[test]
fn a_certificate_that_is_due_stays_due() {
    let mut m = metadata();
    m.expires_at = time(100 * 86_400);
    assert!(!config().needs_renewal_at(&m, &time(70 * 86_400)));
    assert!(config().needs_renewal_at(&m, &time(70 * 86_400 + 1)));
    assert!(config().needs_renewal_at(&m, &time(100 * 86_400)));
    assert!(config().needs_renewal_at(&m, &time(1000 * 86_400)));
}

#[test]
fn the_default_command_is_certbot() {
    assert_eq!(
        config().acme_command(None),
        "certbot certonly --webroot -w certs/ -d example.com --email admin@example.com --agree-tos --non-interactive "
    );
    let mut staging = config();
    staging.use_staging = true;
    assert_eq!(
        staging.acme_command(None),
        "certbot certonly --webroot -w certs/ -d example.com --email admin@example.com --agree-tos --non-interactive --staging"
    );
}

#[test]
fn a_template_is_filled_in() {
    let t = "acme {domain} {domain} {email}:{cert_dir}{staging_flag} {other}".to_string();
    assert_eq!(
        config().acme_command(Some(t)),
        "acme example.com example.com admin@example.com:certs/ {other}"
    );
    assert_eq!(config().acme_command(Some("true".to_string())), "true");
}

#[test]
fn placeholders_in_values_are_filled_in_by_the_later_ones_only() {
    let mut c = config();
    c.domain = "{email}".to_string();
    c.email = "{domain}".to_string();
    assert_eq!(c.acme_command(Some("{domain} {email}".to_string())), "{domain} {domain}");
}

#[test]
fn lines_of_dates_are_told_apart() {
    assert_eq!(split_date_field("notBefore=x"), Some((DateKind::Issued, "x")));
    assert_eq!(split_date_field("notAfter="), Some((DateKind::Expires, "")));
    assert_eq!(split_date_field("notafter=x"), None);
    assert_eq!(split_date_field(" notAfter=x"), None);
}

#[test]
fn the_last_date_that_can_be_read_is_found() {
    let printout = "notBefore=Thu, 01 Jan 1970 00:00:01 GMT\r\n\
                    notAfter=Thu, 01 Jan 1970 00:00:02 GMT\n\
                    notAfter=Thu, 01 Jan 1970 00:00:03 GMT\n\
                    notAfter=Jan  1 00:00:09 1970 UTC\n\
                    subject=Thu, 01 Jan 1970 00:00:08 GMT\n";
    let found = scan_dates(printout);
    assert_eq!(found, FoundDates { issued: Some(time(1)), expires: Some(time(3)) });
    assert_eq!(scan_dates(""), FoundDates { issued: None, expires: None });
}

#[test]
fn notes_replace_what_was_found_before() {
    let none = FoundDates { issued: None, expires: None };
    let one = none.note(DateKind::Issued, Some(time(1)));
    assert_eq!(one, FoundDates { issued: Some(time(1)), expires: None });
    assert_eq!(one.note(DateKind::Issued, None), one);
    assert_eq!(one.note(DateKind::Issued, Some(time(2))).issued, Some(time(2)));
    assert_eq!(one.note(DateKind::Expires, Some(time(2))).expires, Some(time(2)));
}

#[test]
fn printed_dates_are_extracted() {
    let printout = b"notBefore=Thu, 01 Jan 1970 00:00:01 GMT\nnotAfter=Thu, 01 Jan 1970 00:00:02 GMT\n";
    let dates = extract_dates_from_pem(&OpensslRun::Printed(printout.to_vec())).unwrap().unwrap();
    assert_eq!(dates, CertificateDates { expires_at: time(2), issued_at: time(1) });
}

#[test]
fn dates_as_openssl_prints_them_are_extracted() {
    let printout = b"notBefore=Jan  1 00:00:00 2024 GMT\nnotAfter=Mar 31 00:00:00 2024 GMT\n";
    let dates = extract_dates_from_pem(&OpensslRun::Printed(printout.to_vec())).unwrap().unwrap();
    let expected =
        CertificateDates { expires_at: time(1_711_843_200), issued_at: time(1_704_067_200) };
    assert_eq!(dates, expected);
    assert_eq!(certificate_dates(Ok(Some(dates))), Some(expected));
    let mut m = metadata();
    m.expires_at = dates.expires_at;
    assert!(config().needs_renewal(&m));
    assert!(!config().needs_renewal_at(&m, &time(1_711_843_200 - 30 * 86_400)));
    assert!(config().needs_renewal_at(&m, &time(1_711_843_200 - 30 * 86_400 + 1)));
}

#[test]
fn openssl_is_asked_for_the_dates_alone() {
    assert_eq!(OPENSSL, "openssl");
    assert_eq!(openssl_args("certs/cert.pem"), ["x509", "-in", "certs/cert.pem", "-noout", "-dates"]);
}

#[test]
fn each_missing_date_comes_from_the_clock_alone() {
    let before = chrono::Utc::now().timestamp();
    let issued = b"notBefore=Jan  1 00:00:00 2024 GMT\n";
    let dates = extract_dates_from_pem(&OpensslRun::Printed(issued.to_vec())).unwrap().unwrap();
    assert_eq!(dates.issued_at, time(1_704_067_200));
    assert!(dates.expires_at.secs >= before + 90 * 86_400);
    let expires = b"notAfter=Mar 31 00:00:00 2024 GMT\n";
    let dates = extract_dates_from_pem(&OpensslRun::Printed(expires.to_vec())).unwrap().unwrap();
    assert_eq!(dates.expires_at, time(1_711_843_200));
    assert!(dates.issued_at.secs >= before);
}

#[test]
fn bytes_that_are_no_text_do_not_hide_the_dates() {
    let mut printout = vec![0xffu8, 0xfe, b'\n'];
    printout.extend_from_slice(b"notAfter=Thu, 01 Jan 1970 00:00:02 GMT");
    let dates = extract_dates_from_pem(&OpensslRun::Printed(printout)).unwrap().unwrap();
    assert_eq!(dates.expires_at, time(2));
}

#[test]
fn dates_that_were_not_printed_come_from_the_clock() {
    let before = chrono::Utc::now().timestamp();
    let printout = b"notBefore=Jan  1 00:00:00 2024 PST\nnotAfter=soon\n";
    let dates = extract_dates_from_pem(&OpensslRun::Printed(printout.to_vec())).unwrap().unwrap();
    let after = chrono::Utc::now().timestamp();
    assert!(before <= dates.issued_at.secs && dates.issued_at.secs <= after);
    let assumed = 90 * 86_400;
    assert!(before + assumed <= dates.expires_at.secs && dates.expires_at.secs <= after + assumed);
}

#[test]
fn a_failed_lookup_of_dates_falls_back_to_the_clock() {
    let extracted = extract_dates_from_pem(&OpensslRun::NotRun);
    assert_eq!(extracted, Err(DatesError::NotRun));
    let before = chrono::Utc::now().timestamp();
    let dates = certificate_dates(extracted).unwrap();
    let after = chrono::Utc::now().timestamp();
    assert!(before <= dates.issued_at.secs && dates.issued_at.secs <= after);
    assert!(dates.expires_at.secs - dates.issued_at.secs >= 90 * 86_400);
    assert_eq!(
        extract_dates_from_pem(&OpensslRun::ExitedNonZero),
        Err(DatesError::ExitedNonZero)
    );
    let given = CertificateDates { expires_at: time(5), issued_at: time(4) };
    assert_eq!(certificate_dates(Ok(Some(given))), Some(given));
    assert_eq!(certificate_dates(Ok(None)), None);
}

#[test]
fn a_new_certificate_with_assumed_dates_is_not_due() {
    let dates = certificate_dates(Err(DatesError::NotRun)).unwrap();
    let mut m = metadata();
    m.expires_at = dates.expires_at;
    assert!(!config().needs_renewal(&m));
}

#[test]
fn errors_of_the_lookup_of_dates_have_their_texts() {
    assert_eq!(
        DatesError::NotRun.message(),
        "failed to run openssl to parse certificate dates"
    );
    assert_eq!(DatesError::ExitedNonZero.message(), "openssl exited non-zero parsing cert");
}

/// One step of an attempt before which certbot kept `pair(5)`.
fn go_on(attempt: Attempt, event: Event) -> (Attempt, Action) {
    assert!(attempt.accepts(&event));
    match config().step_attempt(Some(pair(5)), attempt, event) {
        AttemptProgress::Continue(next, action) => (next, action),
        AttemptProgress::Finished(_) => panic!("the attempt ended"),
    }
}

fn end(attempt: Attempt, event: Event) -> Result<CertificateMetadata, ProvisionError> {
    assert!(attempt.accepts(&event));
    match config().step_attempt(Some(pair(5)), attempt, event) {
        AttemptProgress::Continue(_, _) => panic!("the attempt went on"),
        AttemptProgress::Finished(result) => result,
    }
}

fn error_text(attempt: Attempt, event: Event) -> String {
    end(attempt, event).unwrap_err().message()
}

fn exited(success: bool) -> Event {
    Event::CommandExited { success, status: "exit status: 1".to_string() }
}

fn failed() -> Event {
    Event::Failed("disk full".to_string())
}

/// The state of a certificate and key, with the certificate modified then.
fn pair(modified: i64) -> PairStamp {
    PairStamp {
        cert: FileStamp { modified: time(modified), len: 1500 },
        key: FileStamp { modified: time(7), len: 240 },
    }
}

fn is_local_pair(action: &Action) -> bool {
    matches!(action, Action::InspectPair { cert, key }
        if cert == "certs/cert.pem" && key == "certs/key.pem")
}

fn is_live_pair(action: &Action) -> bool {
    matches!(action, Action::InspectPair { cert, key }
        if cert == "/etc/letsencrypt/live/example.com/fullchain.pem"
            && key == "/etc/letsencrypt/live/example.com/privkey.pem")
}

#[test]
fn a_pair_is_new_where_a_file_of_it_changed() {
    assert!(pair_is_new(None, Some(pair(1))));
    assert!(pair_is_new(Some(pair(1)), Some(pair(2))));
    assert!(!pair_is_new(Some(pair(1)), Some(pair(1))));
    assert!(!pair_is_new(Some(pair(1)), None));
    assert!(!pair_is_new(None, None));
    let mut longer = pair(1);
    longer.cert.len += 1;
    assert!(pair_is_new(Some(pair(1)), Some(longer)));
    let mut other_key = pair(1);
    other_key.key.modified = time(8);
    assert!(pair_is_new(Some(pair(1)), Some(other_key)));
}

#[test]
fn an_attempt_takes_what_the_command_left() {
    let (attempt, action) = config().try_provision_certificate();
    assert!(matches!(action, Action::CreateDir(dir) if dir == "certs/"));
    let (attempt, action) = go_on(attempt, Event::Succeeded);
    assert!(is_local_pair(&action));
    let (attempt, action) = go_on(attempt, Event::Pair(None));
    assert!(matches!(action, Action::ReadTemplate));
    let (attempt, action) = go_on(attempt, Event::Template(Some("get {domain}".to_string())));
    assert!(matches!(action, Action::RunCommand { command, timeout_secs: 120 } if command == "get example.com"));
    let (attempt, action) = go_on(attempt, exited(true));
    assert!(is_local_pair(&action));
    let (attempt, action) = go_on(attempt, Event::Pair(Some(pair(1))));
    assert!(matches!(action, Action::ReadDates(path) if path == "certs/cert.pem"));
    let dates = Event::Dates { expires_at: time(2), issued_at: time(1) };
    let (attempt, action) = go_on(attempt, dates);
    assert!(matches!(action, Action::CreateDir(dir) if dir == "certs/"));
    let (attempt, action) = go_on(attempt, Event::Succeeded);
    match action {
        Action::WriteMetadata { path, metadata: m } => {
            assert_eq!(path, "certs/cert_metadata.json");
            assert!(same(&m, &metadata()));
        }
        _ => panic!("the metadata is not written"),
    }
    assert!(same(&end(attempt, Event::Succeeded).unwrap(), &metadata()));
}

fn is_copy(action: &Action, source: &str, target: &str) -> bool {
    matches!(action, Action::CopyFile { from, to } if from == source && to == target)
}

fn is_rename(action: &Action, source: &str, target: &str) -> bool {
    matches!(action, Action::RenameFile { from, to } if from == source && to == target)
}

fn reads_local_dates(attempt: &Attempt, action: &Action) -> bool {
    matches!(attempt, Attempt::ReadingDates)
        && matches!(action, Action::ReadDates(path) if path == "certs/cert.pem")
}

const LIVE_CERT: &str = "/etc/letsencrypt/live/example.com/fullchain.pem";
const LIVE_KEY: &str = "/etc/letsencrypt/live/example.com/privkey.pem";

#[test]
fn an_attempt_copies_what_certbot_keeps() {
    for live in [5, 9] {
        let looking = Attempt::InspectingLocal { before: None };
        let (attempt, action) = go_on(looking, Event::Pair(None));
        assert!(is_live_pair(&action));
        let (attempt, action) = go_on(attempt, Event::Pair(Some(pair(live))));
        assert!(is_copy(&action, LIVE_CERT, "certs/cert.pem"));
        let (attempt, action) = go_on(attempt, Event::Succeeded);
        assert!(is_copy(&action, LIVE_KEY, "certs/key.pem"));
        let (attempt, action) = go_on(attempt, Event::Succeeded);
        assert!(reads_local_dates(&attempt, &action));
    }
}

#[test]
fn a_renewal_replaces_the_earlier_pair() {
    let (attempt, _) = config().try_provision_certificate();
    let (attempt, _) = go_on(attempt, Event::Succeeded);
    let (attempt, _) = go_on(attempt, Event::Pair(Some(pair(1))));
    let (attempt, _) = go_on(attempt, Event::Template(None));
    let (attempt, action) = go_on(attempt, exited(true));
    assert!(is_local_pair(&action));
    let (attempt, action) = go_on(attempt, Event::Pair(Some(pair(1))));
    assert!(is_live_pair(&action));
    let (attempt, action) = go_on(attempt, Event::Pair(Some(pair(9))));
    assert!(is_copy(&action, LIVE_CERT, "certs/cert.pem.new"));
    let (attempt, action) = go_on(attempt, Event::Succeeded);
    assert!(is_copy(&action, LIVE_KEY, "certs/key.pem.new"));
    let (attempt, action) = go_on(attempt, Event::Succeeded);
    assert!(is_rename(&action, "certs/cert.pem.new", "certs/cert.pem"));
    let (attempt, action) = go_on(attempt, Event::Succeeded);
    assert!(is_rename(&action, "certs/key.pem.new", "certs/key.pem"));
    let (attempt, action) = go_on(attempt, Event::Succeeded);
    assert!(reads_local_dates(&attempt, &action));
}

#[test]
fn a_renewal_in_place_is_taken() {
    let looking = Attempt::InspectingLocal { before: Some(pair(1)) };
    let (attempt, action) = go_on(looking, Event::Pair(Some(pair(2))));
    assert!(reads_local_dates(&attempt, &action));
}

#[test]
fn an_untouched_pair_stays_whatever_certbot_kept_before() {
    for live in [None, Some(pair(5))] {
        let looking = Attempt::InspectingLocal { before: Some(pair(1)) };
        let (attempt, action) = go_on(looking, Event::Pair(Some(pair(1))));
        assert!(is_live_pair(&action));
        let (attempt, action) = go_on(attempt, Event::Pair(live));
        assert!(reads_local_dates(&attempt, &action));
    }
}

#[test]
fn an_untouched_pair_is_obtained_with_its_dates() {
    let c = LetsEncryptConfig::new("example.com".to_string(), "a@b.c".to_string(), "/c", false);
    for live in [None, Some(pair(5))] {
        let (mut state, action) = c.provision_certificate();
        assert!(is_live_pair(&action));
        let events = vec![
            Event::Pair(live),
            Event::Succeeded,
            Event::Pair(Some(pair(1))),
            Event::Template(Some("true".to_string())),
            exited(true),
            Event::Pair(Some(pair(1))),
            Event::Pair(live),
            Event::Dates { expires_at: time(1_711_843_200), issued_at: time(1_704_067_200) },
            Event::Succeeded,
        ];
        for event in events {
            assert!(state.accepts(&event));
            match c.step_provision(state, event) {
                Progress::Continue(next, action) => {
                    assert!(!matches!(action, Action::CopyFile { .. } | Action::RenameFile { .. }));
                    state = next;
                }
                Progress::Finished(_) => panic!("it ended early"),
            }
        }
        match c.step_provision(state, Event::Succeeded) {
            Progress::Finished(Ok(m)) => {
                assert_eq!(m.domain, "example.com");
                assert_eq!(m.issued_at, time(1_704_067_200));
                assert_eq!(m.expires_at, time(1_711_843_200));
                assert_eq!(m.cert_path, "/c/cert.pem");
                assert_eq!(m.key_path, "/c/key.pem");
            }
            _ => panic!("no certificate"),
        }
    }
}

/// Goes through an attempt up to where what certbot keeps is looked at, with a
/// certificate and key of the server that the command leaves as they are.
fn up_to_live(mut state: Provision) -> Provision {
    for event in [
        Event::Succeeded,
        Event::Pair(Some(pair(1))),
        Event::Template(None),
        exited(true),
        Event::Pair(Some(pair(1))),
    ] {
        assert!(state.accepts(&event));
        state = match config().step_provision(state, event) {
            Progress::Continue(next, _) => next,
            Progress::Finished(_) => panic!("it ended"),
        };
    }
    state
}

fn proceed(state: Provision, event: Event) -> (Provision, Action) {
    assert!(state.accepts(&event));
    match config().step_provision(state, event) {
        Progress::Continue(next, action) => (next, action),
        Progress::Finished(_) => panic!("it ended"),
    }
}

#[test]
fn a_pair_that_could_not_be_copied_is_still_new_in_the_next_attempt() {
    let (state, _) = config().provision_certificate();
    let (state, _) = proceed(state, Event::Pair(Some(pair(5))));
    let (state, action) = proceed(up_to_live(state), Event::Pair(Some(pair(9))));
    assert!(is_copy(&action, LIVE_CERT, "certs/cert.pem.new"));
    let (state, action) = proceed(state, failed());
    assert!(matches!(action, Action::Sleep(5)));
    let (state, _) = proceed(state, Event::Slept);
    assert_eq!(state.attempt, 2);
    let (_, action) = proceed(up_to_live(state), Event::Pair(Some(pair(9))));
    assert!(is_copy(&action, LIVE_CERT, "certs/cert.pem.new"));
}

#[test]
fn the_earlier_pair_is_not_touched_until_both_copies_are_made() {
    let (state, _) = config().provision_certificate();
    let (state, _) = proceed(state, Event::Pair(None));
    let (state, action) = proceed(up_to_live(state), Event::Pair(Some(pair(9))));
    assert!(is_copy(&action, LIVE_CERT, "certs/cert.pem.new"));
    let (state, action) = proceed(state, Event::Succeeded);
    assert!(is_copy(&action, LIVE_KEY, "certs/key.pem.new"));
    let (state, action) = proceed(state, failed());
    assert!(matches!(action, Action::Sleep(5)));
    assert!(matches!(&state.phase, Phase::Waiting(e) if e.message() == "disk full"));
}

#[test]
fn a_pair_that_went_missing_leads_to_what_certbot_keeps() {
    let looking = Attempt::InspectingLocal { before: Some(pair(1)) };
    let (attempt, _) = go_on(looking, Event::Pair(None));
    assert!(matches!(attempt, Attempt::InspectingLive { local: false }));
}

#[test]
fn each_failure_of_an_attempt_has_its_text() {
    assert_eq!(error_text(Attempt::CreatingDir, failed()), "creating cert_dir certs/");
    assert_eq!(
        error_text(Attempt::RunningCommand { before: None }, Event::CommandTimedOut),
        "ACME command timed out"
    );
    assert_eq!(
        error_text(Attempt::RunningCommand { before: None }, Event::CommandNotSpawned),
        "failed to spawn ACME command"
    );
    assert_eq!(
        error_text(Attempt::RunningCommand { before: None }, exited(false)),
        "ACME command exited with non-zero status: exit status: 1"
    );
    assert_eq!(error_text(Attempt::CopyingCert { aside: false }, failed()), "disk full");
    assert_eq!(error_text(Attempt::CopyingKey { aside: false }, failed()), "disk full");
    assert_eq!(error_text(Attempt::RenamingCert, failed()), "disk full");
    assert_eq!(error_text(Attempt::RenamingKey, failed()), "disk full");
    assert_eq!(error_text(Attempt::SavingDir(metadata()), failed()), "disk full");
    assert_eq!(error_text(Attempt::SavingFile(metadata()), failed()), "disk full");
    let not_found = "ACME command succeeded but cert files not found in known locations \
                     (tried certs/cert.pem, /etc/letsencrypt/live/example.com/fullchain.pem)";
    assert_eq!(error_text(Attempt::InspectingLive { local: false }, Event::Pair(None)), not_found);
    assert!(matches!(
        end(Attempt::CopyingKey { aside: true }, failed()),
        Err(ProvisionError::Copy { why }) if why == "disk full"
    ));
    assert!(matches!(
        end(Attempt::SavingFile(metadata()), failed()),
        Err(ProvisionError::Save { why }) if why == "disk full"
    ));
}

#[test]
fn events_out_of_turn_are_not_accepted() {
    assert!(!Attempt::CreatingDir.accepts(&Event::Slept));
    assert!(!Attempt::InspectingBefore.accepts(&Event::Succeeded));
    assert!(!Attempt::ReadingTemplate { before: None }.accepts(&Event::Succeeded));
    assert!(!Attempt::RunningCommand { before: None }.accepts(&Event::Pair(None)));
    assert!(!Attempt::InspectingLocal { before: None }.accepts(&Event::Succeeded));
    assert!(!Attempt::InspectingLive { local: true }.accepts(&Event::Template(None)));
    assert!(!Attempt::ReadingDates.accepts(&Event::Succeeded));
    let waiting = Provision {
        attempt: 1,
        live_before: None,
        phase: Phase::Waiting(ProvisionError::TimedOut),
    };
    assert!(waiting.accepts(&Event::Slept));
    assert!(!waiting.accepts(&Event::Succeeded));
    let (starting, _) = config().provision_certificate();
    assert!(starting.accepts(&Event::Pair(None)));
    assert!(!starting.accepts(&Event::Succeeded));
}

#[test]
fn three_failures_end_the_attempts() {
    let c = config();
    let (state, action) = c.provision_certificate();
    assert!(is_live_pair(&action));
    let (mut state, action) = proceed(state, Event::Pair(None));
    assert!(matches!(action, Action::CreateDir(dir) if dir == "certs/"));
    let mut waits = 0;
    let failure: ProvisionFailure = loop {
        assert!(state.accepts(&failed()));
        match c.step_provision(state, failed()) {
            Progress::Continue(next, action) => {
                assert!(matches!(action, Action::Sleep(5)));
                waits += 1;
                assert!(matches!(&next.phase, Phase::Waiting(e) if e.message() == "creating cert_dir certs/"));
                assert_eq!(next.attempt, waits);
                match c.step_provision(next, Event::Slept) {
                    Progress::Continue(again, action) => {
                        assert!(matches!(action, Action::CreateDir(dir) if dir == "certs/"));
                        assert_eq!(again.attempt, waits + 1);
                        state = again;
                    }
                    Progress::Finished(_) => panic!("it ended after a wait"),
                }
            }
            Progress::Finished(result) => break result.unwrap_err(),
        }
    };
    assert_eq!(waits, 2);
    assert_eq!(failure.attempts, 3);
    assert_eq!(
        failure.message(),
        "Certificate provisioning failed after 3 attempts: creating cert_dir certs/"
    );
}

#[test]
fn the_longest_course_takes_forty_two_events() {
    let c = config();
    let (mut state, _) = c.provision_certificate();
    let mut events = 0;
    loop {
        let event = match &state.phase {
            Phase::Starting => Event::Pair(None),
            Phase::Waiting(_) => Event::Slept,
            Phase::Trying(attempt) => match attempt {
                Attempt::InspectingBefore
                | Attempt::InspectingLocal { .. }
                | Attempt::InspectingLive { .. } => Event::Pair(Some(pair(1))),
                Attempt::ReadingTemplate { .. } => Event::Template(None),
                Attempt::RunningCommand { .. } => exited(true),
                Attempt::ReadingDates => Event::Dates { expires_at: time(2), issued_at: time(1) },
                Attempt::SavingFile(_) => failed(),
                _ => Event::Succeeded,
            },
        };
        assert!(state.accepts(&event));
        events += 1;
        match c.step_provision(state, event) {
            Progress::Continue(next, _) => state = next,
            Progress::Finished(result) => {
                assert!(result.is_err());
                break;
            }
        }
    }
    assert_eq!(events, 42);
}

#[test]
fn the_first_success_ends_the_attempts() {
    let state = Provision {
        attempt: 2,
        live_before: None,
        phase: Phase::Trying(Attempt::SavingFile(metadata())),
    };
    match config().step_provision(state, Event::Succeeded) {
        Progress::Finished(Ok(m)) => assert!(same(&m, &metadata())),
        _ => panic!("no certificate"),
    }
}
