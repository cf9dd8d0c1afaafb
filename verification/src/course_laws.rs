//! What is done to obtain a certificate, step by step, and what is made of each
//! failure.

use vstd::prelude::*;

use crate::acme::{LetsEncryptView, MetadataView};
use crate::acme_laws::law_default_command_of_plain_values;
use crate::pair_laws::{lemma_prefix, lemma_step};
use crate::provision::{
    attempt_next, is_new_pair, provision_next, ActionView, AttemptProgressView, AttemptView,
    EventView, PairStamp, PhaseView, ProgressView, ProvisionErrorView, ProvisionFailureView,
    ProvisionView,
};
use crate::provision_laws::{actions, describes_local, is_course, outcome};
use crate::text;

verus! {

/// The command that is run is the one that the template gives which was looked
/// up just before, and it may take two minutes. Where no template is configured
/// and the values hold no placeholders, it is certbot for the domain, with the
/// certificate directory as its webroot.
pub proof fn law_command_is_that_of_the_template(
    config: LetsEncryptView,
    events: Seq<EventView>,
    i: int,
)
    requires
        is_course(config, events),
        0 <= i < actions(config, events).len(),
        actions(config, events)[i] is RunCommand,
    ensures
        0 < i <= events.len(),
        events[i - 1] is Template,
        actions(config, events)[i] == (ActionView::RunCommand {
            command: config.acme_command(events[i - 1]->Template_0),
            timeout_secs: 120,
        }),
        events[i - 1]->Template_0 is None && !config.domain.contains('{') && !config.email.contains(
            '{',
        ) && !config.cert_dir.contains('{') ==> actions(config, events)[i]->command
            == "certbot certonly --webroot -w "@ + config.cert_dir + " -d "@ + config.domain
            + " --email "@ + config.email + " --agree-tos --non-interactive "@ + (
        if config.use_staging {
            "--staging"@
        } else {
            ""@
        }),
{
    lemma_prefix(config, events, i);
    if i > 0 {
        let before = lemma_step(config, events, i - 1);
    } else {
        lemma_first_action(config, events);
    }
    if !config.domain.contains('{') && !config.email.contains('{') && !config.cert_dir.contains(
        '{',
    ) {
        reveal_strlit("{email}");
        reveal_strlit("{cert_dir}");
        reveal_strlit("{staging_flag}");
        lemma_no_placeholder(config.domain, "{email}"@);
        lemma_no_placeholder(config.domain, "{cert_dir}"@);
        lemma_no_placeholder(config.domain, "{staging_flag}"@);
        lemma_no_placeholder(config.email, "{cert_dir}"@);
        lemma_no_placeholder(config.email, "{staging_flag}"@);
        lemma_no_placeholder(config.cert_dir, "{staging_flag}"@);
        law_default_command_of_plain_values(config);
    }
}

/// A text without an opening brace holds no placeholder.
proof fn lemma_no_placeholder(s: Seq<char>, pat: Seq<char>)
    requires
        pat.len() > 0,
        pat[0] == '{',
        !s.contains('{'),
    ensures
        !text::occurs(pat, s),
{
    assert forall|i: int| 0 <= i <= s.len() implies !pat.is_prefix_of(#[trigger] s.skip(i)) by {
        if pat.is_prefix_of(s.skip(i)) {
            assert(s.skip(i)[0] == s.skip(i).subrange(0, pat.len() as int)[0]);
            assert(s[i] == '{');
        }
    }
}

/// Directories are created for the certificates alone, the files that are looked
/// at are the server's and certbot's, what certbot keeps is copied and never
/// written to, dates are those of the server's certificate, metadata is written
/// to its file, and a wait lasts five seconds.
pub proof fn law_what_is_asked_for(config: LetsEncryptView, events: Seq<EventView>, i: int)
    requires
        is_course(config, events),
        0 <= i < actions(config, events).len(),
    ensures
        match actions(config, events)[i] {
            ActionView::CreateDir(dir) => dir == config.cert_dir,
            ActionView::ReadTemplate => true,
            ActionView::RunCommand { timeout_secs, .. } => timeout_secs == 120,
            ActionView::InspectPair { cert, key } => {
                ||| cert == config.local_cert() && key == config.local_key()
                ||| cert == config.live_cert() && key == config.live_key()
            },
            ActionView::ReadDates(path) => path == config.local_cert(),
            ActionView::CopyFile { from, to } => {
                ||| from == config.live_cert() && (to == config.local_cert() || to
                    == config.next_cert())
                ||| from == config.live_key() && (to == config.local_key() || to
                    == config.next_key())
            },
            ActionView::RenameFile { from, to } => {
                ||| from == config.next_cert() && to == config.local_cert()
                ||| from == config.next_key() && to == config.local_key()
            },
            ActionView::WriteMetadata { path, .. } => path == config.metadata_path(),
            ActionView::Sleep(secs) => secs == 5,
        },
{
    lemma_prefix(config, events, i);
    if i > 0 {
        let before = lemma_step(config, events, i - 1);
    } else {
        lemma_first_action(config, events);
    }
}

/// What certbot keeps is looked at first.
proof fn lemma_first_action(config: LetsEncryptView, events: Seq<EventView>)
    ensures
        actions(config, events).len() > 0,
        actions(config, events)[0] == (ActionView::InspectPair {
            cert: config.live_cert(),
            key: config.live_key(),
        }),
    decreases events.len(),
{
    if events.len() > 0 {
        lemma_first_action(config, events.drop_last());
    }
}

/// Two states of a certificate and its key are told apart by each of the files,
/// by when it was modified and by its length; where a file is missing there is
/// nothing new, and where there was none anything is.
pub proof fn law_new_pairs(before: PairStamp, after: PairStamp)
    ensures
        !is_new_pair(None, None),
        !is_new_pair(Some(before), None),
        is_new_pair(None, Some(after)),
        !is_new_pair(Some(before), Some(before)),
        is_new_pair(Some(before), Some(after)) <==> before.cert.modified
            != after.cert.modified || before.cert.len != after.cert.len || before.key.modified
            != after.key.modified || before.key.len != after.key.len,
{
}

/// The whole course where the command leaves a new certificate and key in the
/// certificate directory: they are taken as they are, and the metadata that is
/// stored and given has the dates that were read of them.
pub proof fn law_course_of_a_pair_left_in_place(
    config: LetsEncryptView,
    live_before: Option<PairStamp>,
    before: Option<PairStamp>,
    after: PairStamp,
    template: Option<Seq<char>>,
    status: Seq<char>,
    metadata: MetadataView,
)
    requires
        describes_local(config, metadata),
        before matches Some(b) ==> b != after,
    ensures
        ({
            let events = seq![
                EventView::Pair(live_before),
                EventView::Succeeded,
                EventView::Pair(before),
                EventView::Template(template),
                EventView::CommandExited { success: true, status },
                EventView::Pair(Some(after)),
                EventView::Dates { expires_at: metadata.expires_at, issued_at: metadata.issued_at },
                EventView::Succeeded,
                EventView::Succeeded,
            ];
            &&& is_course(config, events)
            &&& outcome(config, events) == ProgressView::Finished(Ok(metadata))
            &&& actions(config, events) == seq![
                ActionView::InspectPair { cert: config.live_cert(), key: config.live_key() },
                ActionView::CreateDir(config.cert_dir),
                ActionView::InspectPair { cert: config.local_cert(), key: config.local_key() },
                ActionView::ReadTemplate,
                ActionView::RunCommand { command: config.acme_command(template), timeout_secs: 120 },
                ActionView::InspectPair { cert: config.local_cert(), key: config.local_key() },
                ActionView::ReadDates(config.local_cert()),
                ActionView::CreateDir(config.cert_dir),
                ActionView::WriteMetadata { path: config.metadata_path(), metadata },
            ]
        }),
{
    let events = seq![
        EventView::Pair(live_before),
        EventView::Succeeded,
        EventView::Pair(before),
        EventView::Template(template),
        EventView::CommandExited { success: true, status },
        EventView::Pair(Some(after)),
        EventView::Dates { expires_at: metadata.expires_at, issued_at: metadata.issued_at },
        EventView::Succeeded,
        EventView::Succeeded,
    ];
    reveal_with_fuel(outcome, 10);
    reveal_with_fuel(is_course, 10);
    reveal_with_fuel(actions, 10);
    assert(actions(config, events) =~= seq![
        ActionView::InspectPair { cert: config.live_cert(), key: config.live_key() },
        ActionView::CreateDir(config.cert_dir),
        ActionView::InspectPair { cert: config.local_cert(), key: config.local_key() },
        ActionView::ReadTemplate,
        ActionView::RunCommand { command: config.acme_command(template), timeout_secs: 120 },
        ActionView::InspectPair { cert: config.local_cert(), key: config.local_key() },
        ActionView::ReadDates(config.local_cert()),
        ActionView::CreateDir(config.cert_dir),
        ActionView::WriteMetadata { path: config.metadata_path(), metadata },
    ]);
}

/// The whole course where the command leaves everything as it was, and the
/// server has a certificate and key: they are taken as they are.
pub proof fn law_course_of_an_untouched_pair(
    config: LetsEncryptView,
    live_before: Option<PairStamp>,
    before: Option<PairStamp>,
    live: Option<PairStamp>,
    template: Option<Seq<char>>,
    status: Seq<char>,
    metadata: MetadataView,
)
    requires
        describes_local(config, metadata),
        before is Some,
        live is None || live == live_before,
    ensures
        ({
            let events = seq![
                EventView::Pair(live_before),
                EventView::Succeeded,
                EventView::Pair(before),
                EventView::Template(template),
                EventView::CommandExited { success: true, status },
                EventView::Pair(before),
                EventView::Pair(live),
                EventView::Dates { expires_at: metadata.expires_at, issued_at: metadata.issued_at },
                EventView::Succeeded,
                EventView::Succeeded,
            ];
            &&& is_course(config, events)
            &&& outcome(config, events) == ProgressView::Finished(Ok(metadata))
            &&& actions(config, events) == seq![
                ActionView::InspectPair { cert: config.live_cert(), key: config.live_key() },
                ActionView::CreateDir(config.cert_dir),
                ActionView::InspectPair { cert: config.local_cert(), key: config.local_key() },
                ActionView::ReadTemplate,
                ActionView::RunCommand { command: config.acme_command(template), timeout_secs: 120 },
                ActionView::InspectPair { cert: config.local_cert(), key: config.local_key() },
                ActionView::InspectPair { cert: config.live_cert(), key: config.live_key() },
                ActionView::ReadDates(config.local_cert()),
                ActionView::CreateDir(config.cert_dir),
                ActionView::WriteMetadata { path: config.metadata_path(), metadata },
            ]
        }),
{
    let events = seq![
        EventView::Pair(live_before),
        EventView::Succeeded,
        EventView::Pair(before),
        EventView::Template(template),
        EventView::CommandExited { success: true, status },
        EventView::Pair(before),
        EventView::Pair(live),
        EventView::Dates { expires_at: metadata.expires_at, issued_at: metadata.issued_at },
        EventView::Succeeded,
        EventView::Succeeded,
    ];
    reveal_with_fuel(outcome, 11);
    reveal_with_fuel(is_course, 11);
    reveal_with_fuel(actions, 11);
    assert(actions(config, events) =~= seq![
        ActionView::InspectPair { cert: config.live_cert(), key: config.live_key() },
        ActionView::CreateDir(config.cert_dir),
        ActionView::InspectPair { cert: config.local_cert(), key: config.local_key() },
        ActionView::ReadTemplate,
        ActionView::RunCommand { command: config.acme_command(template), timeout_secs: 120 },
        ActionView::InspectPair { cert: config.local_cert(), key: config.local_key() },
        ActionView::InspectPair { cert: config.live_cert(), key: config.live_key() },
        ActionView::ReadDates(config.local_cert()),
        ActionView::CreateDir(config.cert_dir),
        ActionView::WriteMetadata { path: config.metadata_path(), metadata },
    ]);
}

/// The whole course where the server has no certificate and key after the
/// command, but certbot keeps some: they are copied.
pub proof fn law_course_of_a_missing_pair(
    config: LetsEncryptView,
    live_before: Option<PairStamp>,
    before: Option<PairStamp>,
    live: PairStamp,
    template: Option<Seq<char>>,
    status: Seq<char>,
    metadata: MetadataView,
)
    requires
        describes_local(config, metadata),
    ensures
        ({
            let events = seq![
                EventView::Pair(live_before),
                EventView::Succeeded,
                EventView::Pair(before),
                EventView::Template(template),
                EventView::CommandExited { success: true, status },
                EventView::Pair(None),
                EventView::Pair(Some(live)),
                EventView::Succeeded,
                EventView::Succeeded,
                EventView::Dates { expires_at: metadata.expires_at, issued_at: metadata.issued_at },
                EventView::Succeeded,
                EventView::Succeeded,
            ];
            &&& is_course(config, events)
            &&& outcome(config, events) == ProgressView::Finished(Ok(metadata))
            &&& actions(config, events) == seq![
                ActionView::InspectPair { cert: config.live_cert(), key: config.live_key() },
                ActionView::CreateDir(config.cert_dir),
                ActionView::InspectPair { cert: config.local_cert(), key: config.local_key() },
                ActionView::ReadTemplate,
                ActionView::RunCommand { command: config.acme_command(template), timeout_secs: 120 },
                ActionView::InspectPair { cert: config.local_cert(), key: config.local_key() },
                ActionView::InspectPair { cert: config.live_cert(), key: config.live_key() },
                ActionView::CopyFile { from: config.live_cert(), to: config.local_cert() },
                ActionView::CopyFile { from: config.live_key(), to: config.local_key() },
                ActionView::ReadDates(config.local_cert()),
                ActionView::CreateDir(config.cert_dir),
                ActionView::WriteMetadata { path: config.metadata_path(), metadata },
            ]
        }),
{
    let events = seq![
        EventView::Pair(live_before),
        EventView::Succeeded,
        EventView::Pair(before),
        EventView::Template(template),
        EventView::CommandExited { success: true, status },
        EventView::Pair(None),
        EventView::Pair(Some(live)),
        EventView::Succeeded,
        EventView::Succeeded,
        EventView::Dates { expires_at: metadata.expires_at, issued_at: metadata.issued_at },
        EventView::Succeeded,
        EventView::Succeeded,
    ];
    reveal_with_fuel(outcome, 13);
    reveal_with_fuel(is_course, 13);
    reveal_with_fuel(actions, 13);
    assert(actions(config, events) =~= seq![
        ActionView::InspectPair { cert: config.live_cert(), key: config.live_key() },
        ActionView::CreateDir(config.cert_dir),
        ActionView::InspectPair { cert: config.local_cert(), key: config.local_key() },
        ActionView::ReadTemplate,
        ActionView::RunCommand { command: config.acme_command(template), timeout_secs: 120 },
        ActionView::InspectPair { cert: config.local_cert(), key: config.local_key() },
        ActionView::InspectPair { cert: config.live_cert(), key: config.live_key() },
        ActionView::CopyFile { from: config.live_cert(), to: config.local_cert() },
        ActionView::CopyFile { from: config.live_key(), to: config.local_key() },
        ActionView::ReadDates(config.local_cert()),
        ActionView::CreateDir(config.cert_dir),
        ActionView::WriteMetadata { path: config.metadata_path(), metadata },
    ]);
}

/// The whole course where the command leaves the server's certificate and key as
/// they were, and new ones where certbot keeps them: these are copied aside and
/// then put in place.
#[verifier::rlimit(60)]
pub proof fn law_course_of_a_renewed_pair(
    config: LetsEncryptView,
    live_before: Option<PairStamp>,
    before: Option<PairStamp>,
    live: PairStamp,
    template: Option<Seq<char>>,
    status: Seq<char>,
    metadata: MetadataView,
)
    requires
        describes_local(config, metadata),
        before is Some,
        live_before matches Some(l) ==> l != live,
    ensures
        ({
            let events = seq![
                EventView::Pair(live_before),
                EventView::Succeeded,
                EventView::Pair(before),
                EventView::Template(template),
                EventView::CommandExited { success: true, status },
                EventView::Pair(before),
                EventView::Pair(Some(live)),
                EventView::Succeeded,
                EventView::Succeeded,
                EventView::Succeeded,
                EventView::Succeeded,
                EventView::Dates { expires_at: metadata.expires_at, issued_at: metadata.issued_at },
                EventView::Succeeded,
                EventView::Succeeded,
            ];
            &&& is_course(config, events)
            &&& outcome(config, events) == ProgressView::Finished(Ok(metadata))
            &&& actions(config, events) == seq![
                ActionView::InspectPair { cert: config.live_cert(), key: config.live_key() },
                ActionView::CreateDir(config.cert_dir),
                ActionView::InspectPair { cert: config.local_cert(), key: config.local_key() },
                ActionView::ReadTemplate,
                ActionView::RunCommand { command: config.acme_command(template), timeout_secs: 120 },
                ActionView::InspectPair { cert: config.local_cert(), key: config.local_key() },
                ActionView::InspectPair { cert: config.live_cert(), key: config.live_key() },
                ActionView::CopyFile { from: config.live_cert(), to: config.next_cert() },
                ActionView::CopyFile { from: config.live_key(), to: config.next_key() },
                ActionView::RenameFile { from: config.next_cert(), to: config.local_cert() },
                ActionView::RenameFile { from: config.next_key(), to: config.local_key() },
                ActionView::ReadDates(config.local_cert()),
                ActionView::CreateDir(config.cert_dir),
                ActionView::WriteMetadata { path: config.metadata_path(), metadata },
            ]
        }),
{
    let events = seq![
        EventView::Pair(live_before),
        EventView::Succeeded,
        EventView::Pair(before),
        EventView::Template(template),
        EventView::CommandExited { success: true, status },
        EventView::Pair(before),
        EventView::Pair(Some(live)),
        EventView::Succeeded,
        EventView::Succeeded,
        EventView::Succeeded,
        EventView::Succeeded,
        EventView::Dates { expires_at: metadata.expires_at, issued_at: metadata.issued_at },
        EventView::Succeeded,
        EventView::Succeeded,
    ];
    reveal_with_fuel(outcome, 15);
    reveal_with_fuel(is_course, 15);
    reveal_with_fuel(actions, 15);
    assert(actions(config, events) =~= seq![
        ActionView::InspectPair { cert: config.live_cert(), key: config.live_key() },
        ActionView::CreateDir(config.cert_dir),
        ActionView::InspectPair { cert: config.local_cert(), key: config.local_key() },
        ActionView::ReadTemplate,
        ActionView::RunCommand { command: config.acme_command(template), timeout_secs: 120 },
        ActionView::InspectPair { cert: config.local_cert(), key: config.local_key() },
        ActionView::InspectPair { cert: config.live_cert(), key: config.live_key() },
        ActionView::CopyFile { from: config.live_cert(), to: config.next_cert() },
        ActionView::CopyFile { from: config.live_key(), to: config.next_key() },
        ActionView::RenameFile { from: config.next_cert(), to: config.local_cert() },
        ActionView::RenameFile { from: config.next_key(), to: config.local_key() },
        ActionView::ReadDates(config.local_cert()),
        ActionView::CreateDir(config.cert_dir),
        ActionView::WriteMetadata { path: config.metadata_path(), metadata },
    ]);
}

/// An attempt fails exactly where something was not done, where the command took
/// too long, could not be started or reported failure, or where there is no
/// certificate and key anywhere. The error says which of these it was.
pub proof fn law_failures_of_an_attempt(
    config: LetsEncryptView,
    live_before: Option<PairStamp>,
    attempt: AttemptView,
    event: EventView,
)
    requires
        attempt.accepts(event),
    ensures
        (attempt_next(config, live_before, attempt, event) matches AttemptProgressView::Finished(
            r,
        ) && r is Err) <==> {
            ||| event is Failed
            ||| event is CommandTimedOut
            ||| event is CommandNotSpawned
            ||| event matches EventView::CommandExited { success, .. } && !success
            ||| attempt matches AttemptView::InspectingLive { local } && !local && event
                == EventView::Pair(None)
        },
        attempt_next(config, live_before, attempt, event) matches AttemptProgressView::Finished(
            Err(e),
        ) ==> e.text() == match event {
            EventView::Failed(why) => if attempt is CreatingDir {
                "creating cert_dir "@ + config.cert_dir
            } else {
                why
            },
            EventView::CommandTimedOut => "ACME command timed out"@,
            EventView::CommandNotSpawned => "failed to spawn ACME command"@,
            EventView::CommandExited { status, .. } => "ACME command exited with non-zero status: "@
                + status,
            _ => "ACME command succeeded but cert files not found in known locations (tried "@
                + config.local_cert() + ", "@ + config.live_cert() + ")"@,
        },
        attempt_next(config, live_before, attempt, event) matches AttemptProgressView::Finished(
            Ok(m),
        ) ==> attempt == AttemptView::SavingFile(m) && event is Succeeded,
{
}

/// After a first or second attempt that failed there is a wait of five seconds
/// and then another attempt, which begins like the first. After the third the
/// error is reported, as that of three attempts. One that succeeded is the last.
pub proof fn law_failed_attempts_are_repeated(
    config: LetsEncryptView,
    provision: ProvisionView,
    attempt: AttemptView,
    event: EventView,
    result: Result<MetadataView, ProvisionErrorView>,
)
    requires
        provision.wf(),
        provision.phase == PhaseView::Trying(attempt),
        attempt_next(config, provision.live_before, attempt, event)
            == AttemptProgressView::Finished(result),
    ensures
        match result {
            Ok(m) => provision_next(config, provision, event) == ProgressView::Finished(Ok(m)),
            Err(e) => if provision.attempt < 3 {
                &&& provision_next(config, provision, event) matches ProgressView::Continue(
                    waiting,
                    action,
                )
                &&& action == ActionView::Sleep(5)
                &&& waiting.accepts(EventView::Slept)
                &&& provision_next(config, waiting, EventView::Slept) == ProgressView::Continue(
                    ProvisionView {
                        attempt: (provision.attempt + 1) as u32,
                        live_before: provision.live_before,
                        phase: PhaseView::Trying(AttemptView::CreatingDir),
                    },
                    ActionView::CreateDir(config.cert_dir),
                )
            } else {
                provision_next(config, provision, event) == ProgressView::Finished(
                    Err(ProvisionFailureView { attempts: 3, last: e }),
                )
            },
        },
{
}

/// What is reported in the end names the number of attempts and the error of the
/// last.
pub proof fn law_text_of_the_failure(failure: ProvisionFailureView)
    ensures
        failure.text() == "Certificate provisioning failed after "@ + text::decimal(
            failure.attempts as nat,
        ) + " attempts: "@ + failure.last.text(),
{
}

/// What an attempt waits for is what its last action can come to, and nothing
/// else.
pub proof fn law_answers_that_are_accepted(attempt: AttemptView, event: EventView)
    ensures
        attempt.accepts(event) <==> match event {
            EventView::Succeeded | EventView::Failed(_) => {
                ||| attempt is CreatingDir
                ||| attempt is CopyingCert
                ||| attempt is CopyingKey
                ||| attempt is RenamingCert
                ||| attempt is RenamingKey
                ||| attempt is SavingDir
                ||| attempt is SavingFile
            },
            EventView::Template(_) => attempt is ReadingTemplate,
            EventView::CommandTimedOut => attempt is RunningCommand,
            EventView::CommandNotSpawned => attempt is RunningCommand,
            EventView::CommandExited { .. } => attempt is RunningCommand,
            EventView::Pair(_) => attempt is InspectingBefore || attempt is InspectingLocal
                || attempt is InspectingLive,
            EventView::Dates { .. } => attempt is ReadingDates,
            EventView::Slept => false,
        },
{
}

/// Before the first attempt the answer to what certbot keeps is waited for, in a
/// wait its end, and else what the attempt waits for.
pub proof fn law_answers_that_obtaining_accepts(provision: ProvisionView, event: EventView)
    ensures
        match provision.phase {
            PhaseView::Starting => provision.accepts(event) <==> event is Pair,
            PhaseView::Trying(attempt) => provision.accepts(event) <==> attempt.accepts(event),
            PhaseView::Waiting(_) => provision.accepts(event) <==> event is Slept,
        },
{
}

} // verus!
