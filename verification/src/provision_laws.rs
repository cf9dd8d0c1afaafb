//! What holds of every course that obtaining a certificate can take.

use vstd::prelude::*;

use crate::acme::{LetsEncryptView, MetadataView};
use crate::provision::{
    attempt_next, provision_next, provision_start, ActionView, AttemptProgressView, AttemptView,
    EventView, PhaseView, ProgressView, ProvisionFailureView, ProvisionView, MAX_RETRIES,
    RETRY_DELAY_SECS,
};

verus! {

/// How far obtaining a certificate has come after some events, from its
/// beginning on.
pub open spec fn outcome(config: LetsEncryptView, events: Seq<EventView>) -> ProgressView
    decreases events.len(),
{
    if events.len() == 0 {
        let (provision, action) = provision_start(config);
        ProgressView::Continue(provision, action)
    } else {
        match outcome(config, events.drop_last()) {
            ProgressView::Continue(provision, _) => provision_next(
                config,
                provision,
                events.last(),
            ),
            finished => finished,
        }
    }
}

/// Whether each event answers what was waited for when it came.
pub open spec fn is_course(config: LetsEncryptView, events: Seq<EventView>) -> bool
    decreases events.len(),
{
    events.len() == 0 || {
        &&& is_course(config, events.drop_last())
        &&& outcome(config, events.drop_last()) matches ProgressView::Continue(provision, _)
            && provision.accepts(events.last())
    }
}

/// The actions that were asked for, in order.
pub open spec fn actions(config: LetsEncryptView, events: Seq<EventView>) -> Seq<ActionView>
    decreases events.len(),
{
    if events.len() == 0 {
        seq![provision_start(config).1]
    } else {
        let earlier = actions(config, events.drop_last());
        match outcome(config, events) {
            ProgressView::Continue(_, action) => earlier.push(action),
            ProgressView::Finished(_) => earlier,
        }
    }
}

/// How often a command was to be run.
pub open spec fn count_commands(actions: Seq<ActionView>) -> nat
    decreases actions.len(),
{
    if actions.len() == 0 {
        0
    } else {
        count_commands(actions.drop_last()) + (if actions.last() is RunCommand {
            1nat
        } else {
            0
        })
    }
}

/// How often there was to be a wait.
pub open spec fn count_sleeps(actions: Seq<ActionView>) -> nat
    decreases actions.len(),
{
    if actions.len() == 0 {
        0
    } else {
        count_sleeps(actions.drop_last()) + (if actions.last() is Sleep {
            1nat
        } else {
            0
        })
    }
}

/// Whether metadata is that of the configured domain's certificate, where the
/// server keeps it.
pub open spec fn describes_local(config: LetsEncryptView, metadata: MetadataView) -> bool {
    &&& metadata.domain == config.domain
    &&& metadata.cert_path == config.local_cert()
    &&& metadata.key_path == config.local_key()
}

/// The most events that one attempt can still take.
spec fn attempt_rank(attempt: AttemptView) -> int {
    match attempt {
        AttemptView::CreatingDir => 13,
        AttemptView::InspectingBefore => 12,
        AttemptView::ReadingTemplate { .. } => 11,
        AttemptView::RunningCommand { .. } => 10,
        AttemptView::InspectingLocal { .. } => 9,
        AttemptView::InspectingLive { .. } => 8,
        AttemptView::CopyingCert { .. } => 7,
        AttemptView::CopyingKey { .. } => 6,
        AttemptView::RenamingCert => 5,
        AttemptView::RenamingKey => 4,
        AttemptView::ReadingDates => 3,
        AttemptView::SavingDir(_) => 2,
        AttemptView::SavingFile(_) => 1,
    }
}

/// The most events that obtaining a certificate can still take.
pub closed spec fn provision_rank(provision: ProvisionView) -> int {
    match provision.phase {
        PhaseView::Starting => MAX_EVENTS as int,
        PhaseView::Trying(attempt) => attempt_rank(attempt) + 14 * (MAX_RETRIES
            - provision.attempt),
        PhaseView::Waiting(_) => 14 * (MAX_RETRIES - provision.attempt),
    }
}

/// The most events that obtaining a certificate takes: the first look at what
/// certbot keeps, three attempts of thirteen events each, and the two waits
/// between them.
pub const MAX_EVENTS: u32 = 42;

/// An attempt that has asked for its command to be run.
spec fn has_run(attempt: AttemptView) -> bool {
    !(attempt is CreatingDir || attempt is InspectingBefore || attempt is ReadingTemplate)
}

/// Whether an event says that the command reported success.
pub open spec fn reports_success(event: EventView) -> bool {
    event matches EventView::CommandExited { success, .. } && success
}

/// Whether the command reported success at some time.
pub open spec fn some_success(events: Seq<EventView>) -> bool {
    exists|i: int| 0 <= i < events.len() && reports_success(#[trigger] events[i])
}

/// One more event keeps what was reported before, and is itself a report.
proof fn lemma_some_success(events: Seq<EventView>)
    requires
        events.len() > 0,
        some_success(events.drop_last()) || reports_success(events.last()),
    ensures
        some_success(events),
{
    if some_success(events.drop_last()) {
        let i = choose|i: int|
            0 <= i < events.drop_last().len() && reports_success(#[trigger] events.drop_last()[i]);
        assert(reports_success(events[i]));
    } else {
        assert(reports_success(events[events.len() - 1]));
    }
}

/// Whether the metadata that is being stored, if any, is that of the configured
/// domain's certificate, where the server keeps it.
pub open spec fn stores_local(config: LetsEncryptView, provision: ProvisionView) -> bool {
    match provision.phase {
        PhaseView::Trying(AttemptView::SavingDir(m)) => describes_local(config, m),
        PhaseView::Trying(AttemptView::SavingFile(m)) => describes_local(config, m),
        _ => true,
    }
}

/// An event brings the end nearer, and only a certificate that is kept where
/// the server keeps it is obtained.
pub(crate) proof fn lemma_provision_step(
    config: LetsEncryptView,
    provision: ProvisionView,
    event: EventView,
)
    requires
        provision.wf(),
        provision.accepts(event),
        stores_local(config, provision),
    ensures
        0 < provision_rank(provision) <= MAX_EVENTS,
        match provision_next(config, provision, event) {
            ProgressView::Continue(next, _) => {
                &&& next.wf()
                &&& stores_local(config, next)
                &&& 0 < provision_rank(next) < provision_rank(provision)
            },
            ProgressView::Finished(Ok(m)) => describes_local(config, m),
            ProgressView::Finished(Err(_)) => true,
        },
{
}

/// The beginning has all events before it.
pub(crate) proof fn lemma_provision_start(config: LetsEncryptView)
    ensures
        provision_rank(provision_start(config).0) == MAX_EVENTS,
{
}

/// What holds while a certificate is being obtained.
spec fn under_way(
    config: LetsEncryptView,
    provision: ProvisionView,
    action: ActionView,
    asked: Seq<ActionView>,
    events: Seq<EventView>,
) -> bool {
    &&& provision.wf()
    &&& asked.len() > 0
    &&& asked.last() == action
    &&& match provision.phase {
        PhaseView::Starting => count_sleeps(asked) == 0 && count_commands(asked) == 0,
        PhaseView::Trying(attempt) => {
            &&& count_sleeps(asked) == provision.attempt - 1
            &&& count_commands(asked) <= provision.attempt - 1 + (if has_run(attempt) {
                1int
            } else {
                0
            })
            &&& has_run(attempt) && !(attempt is RunningCommand) ==> some_success(events)
            &&& attempt matches AttemptView::SavingDir(m) ==> describes_local(config, m)
            &&& attempt matches AttemptView::SavingFile(m) ==> describes_local(config, m) && action
                == (ActionView::WriteMetadata { path: config.metadata_path(), metadata: m })
        },
        PhaseView::Waiting(_) => {
            &&& count_sleeps(asked) == provision.attempt
            &&& count_commands(asked) <= provision.attempt
        },
    }
}

/// What holds after every course of events.
spec fn course_inv(config: LetsEncryptView, events: Seq<EventView>) -> bool {
    let asked = actions(config, events);
    match outcome(config, events) {
        ProgressView::Continue(provision, action) => {
            &&& under_way(config, provision, action, asked, events)
            &&& events.len() + provision_rank(provision) <= MAX_EVENTS
        },
        ProgressView::Finished(Ok(m)) => {
            &&& describes_local(config, m)
            &&& asked.last() == (ActionView::WriteMetadata {
                path: config.metadata_path(),
                metadata: m,
            })
            &&& events.last() is Succeeded
            &&& some_success(events)
            &&& count_commands(asked) <= MAX_RETRIES
            &&& count_sleeps(asked) < MAX_RETRIES
            &&& events.len() <= MAX_EVENTS
        },
        ProgressView::Finished(Err(failure)) => {
            &&& failure.attempts == MAX_RETRIES
            &&& count_commands(asked) <= MAX_RETRIES
            &&& count_sleeps(asked) == MAX_RETRIES - 1
            &&& events.len() <= MAX_EVENTS
        },
    }
}

/// One more event keeps what holds of a course.
proof fn lemma_course_step(config: LetsEncryptView, events: Seq<EventView>)
    requires
        events.len() > 0,
        is_course(config, events),
        course_inv(config, events.drop_last()),
    ensures
        course_inv(config, events),
{
    let before = events.drop_last();
    let asked = actions(config, before);
    if some_success(before) || reports_success(events.last()) {
        lemma_some_success(events);
    }
    match outcome(config, before) {
        ProgressView::Continue(provision, action) => {
            match outcome(config, events) {
                ProgressView::Continue(next, next_action) => {
                    let all = asked.push(next_action);
                    assert(all.drop_last() == asked);
                    assert(all.last() == next_action);
                },
                ProgressView::Finished(_) => {},
            }
        },
        ProgressView::Finished(_) => {},
    }
}

/// What holds of a course holds of every course.
proof fn lemma_course(config: LetsEncryptView, events: Seq<EventView>)
    requires
        is_course(config, events),
    ensures
        course_inv(config, events),
    decreases events.len(),
{
    if events.len() == 0 {
        let asked = actions(config, events);
        assert(asked.drop_last() == Seq::<ActionView>::empty());
        reveal_with_fuel(count_sleeps, 2);
        reveal_with_fuel(count_commands, 2);
    } else {
        lemma_course(config, events.drop_last());
        lemma_course_step(config, events);
    }
}

/// The command is run once in an attempt at most, so no more than three times
/// in all, and there are no more than the two waits between the attempts.
pub proof fn law_attempts_are_bounded(config: LetsEncryptView, events: Seq<EventView>)
    requires
        is_course(config, events),
    ensures
        count_commands(actions(config, events)) <= MAX_RETRIES,
        count_sleeps(actions(config, events)) <= MAX_RETRIES - 1,
{
    lemma_course(config, events);
}

/// Every wait is as long as the time between two attempts.
pub proof fn law_waits_are_alike(config: LetsEncryptView, events: Seq<EventView>, i: int)
    requires
        is_course(config, events),
        0 <= i < actions(config, events).len(),
        actions(config, events)[i] is Sleep,
    ensures
        actions(config, events)[i] == ActionView::Sleep(RETRY_DELAY_SECS),
    decreases events.len(),
{
    if events.len() > 0 {
        let earlier = actions(config, events.drop_last());
        if i < earlier.len() {
            law_waits_are_alike(config, events.drop_last(), i);
        }
    }
}

/// Obtaining a certificate comes to an end, however each step turns out.
pub proof fn law_provisioning_ends(config: LetsEncryptView, events: Seq<EventView>)
    requires
        is_course(config, events),
    ensures
        events.len() <= MAX_EVENTS,
        events.len() == MAX_EVENTS ==> outcome(config, events) is Finished,
{
    lemma_course(config, events);
}

/// It is given up only when the last attempt fails, with the waits between the
/// attempts behind it, and the error of that attempt is the one reported.
pub proof fn law_gives_up_after_all_attempts(
    config: LetsEncryptView,
    events: Seq<EventView>,
    failure: ProvisionFailureView,
)
    requires
        is_course(config, events),
        outcome(config, events) == ProgressView::Finished(Err(failure)),
    ensures
        failure.attempts == MAX_RETRIES,
        count_sleeps(actions(config, events)) == MAX_RETRIES - 1,
        outcome(config, events.drop_last()) matches ProgressView::Continue(last, _) && last.attempt
            == MAX_RETRIES && (last.phase matches PhaseView::Trying(attempt) && attempt_next(
            config,
            last.live_before,
            attempt,
            events.last(),
        ) == AttemptProgressView::Finished(Err(failure.last))),
{
    lemma_course(config, events);
    lemma_course(config, events.drop_last());
}

/// A certificate is obtained only after the command has reported success. It is
/// that of the configured domain and kept in the certificate directory, and the
/// last thing done for it was to store its metadata as it is reported.
pub proof fn law_obtained_is_stored(
    config: LetsEncryptView,
    events: Seq<EventView>,
    metadata: MetadataView,
)
    requires
        is_course(config, events),
        outcome(config, events) == ProgressView::Finished(Ok(metadata)),
    ensures
        some_success(events),
        describes_local(config, metadata),
        actions(config, events).last() == (ActionView::WriteMetadata {
            path: config.metadata_path(),
            metadata,
        }),
        events.last() is Succeeded,
{
    lemma_course(config, events);
}

} // verus!
