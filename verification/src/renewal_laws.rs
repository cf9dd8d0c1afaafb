//! What holds of every course that the renewal loop can take.

use vstd::prelude::*;

use crate::acme::{LetsEncryptView, StoredMetadata};
use crate::acme_laws::law_due_in_the_last_thirty_days;
use crate::cert_manager::{
    check_start, is_due, manager_next, ManagerActionView, ManagerEventView, ManagerPhaseView,
    RenewalErrorView, CHECK_INTERVAL_SECS,
};
use crate::clock::UtcTime;
use crate::provision::{ActionView, EventView, ProgressView};
use crate::provision_laws::{
    actions, describes_local, is_course, lemma_provision_start, lemma_provision_step,
    outcome, provision_rank, stores_local, MAX_EVENTS,
};

verus! {

/// What the loop waits for after some events, from its first check on, and the
/// action that it asked for last.
pub open spec fn state_after(config: LetsEncryptView, events: Seq<ManagerEventView>) -> (
    ManagerPhaseView,
    ManagerActionView,
)
    decreases events.len(),
{
    if events.len() == 0 {
        check_start(config)
    } else {
        manager_next(config, state_after(config, events.drop_last()).0, events.last())
    }
}

/// Whether each event answers what was waited for when it came.
pub open spec fn is_loop(config: LetsEncryptView, events: Seq<ManagerEventView>) -> bool
    decreases events.len(),
{
    events.len() == 0 || {
        &&& is_loop(config, events.drop_last())
        &&& state_after(config, events.drop_last()).0.accepts(events.last())
    }
}

/// How often the server was to change to a new acceptor.
pub open spec fn count_swaps(config: LetsEncryptView, events: Seq<ManagerEventView>) -> nat
    decreases events.len(),
{
    if events.len() == 0 {
        0
    } else {
        count_swaps(config, events.drop_last()) + (if state_after(config, events).1
            is SwapAcceptor {
            1nat
        } else {
            0
        })
    }
}

/// Whether an action reports that the certificate was replaced.
pub open spec fn reports_renewal(action: ManagerActionView) -> bool {
    action matches ManagerActionView::Sleep { outcome, .. } && outcome matches Ok(renewed)
        && renewed
}

/// How often it was reported that the certificate was replaced.
pub open spec fn count_renewals(config: LetsEncryptView, events: Seq<ManagerEventView>) -> nat
    decreases events.len(),
{
    if events.len() == 0 {
        0
    } else {
        count_renewals(config, events.drop_last()) + (if reports_renewal(
            state_after(config, events).1,
        ) {
            1nat
        } else {
            0
        })
    }
}

/// What holds of what the loop waits for.
spec fn phase_inv(config: LetsEncryptView, phase: ManagerPhaseView) -> bool {
    match phase {
        ManagerPhaseView::Resting => true,
        ManagerPhaseView::Loading => true,
        ManagerPhaseView::Provisioning(provision) => provision.wf() && stores_local(
            config,
            provision,
        ) && 0 < provision_rank(provision) <= MAX_EVENTS,
        ManagerPhaseView::LoadingTls(m) => describes_local(config, m),
        ManagerPhaseView::CreatingAcceptor(m) => describes_local(config, m),
        ManagerPhaseView::Swapping(m) => describes_local(config, m),
    }
}

/// What holds of the action that was asked for last.
spec fn action_inv(config: LetsEncryptView, action: ManagerActionView) -> bool {
    match action {
        ManagerActionView::LoadMetadata { path } => path == config.metadata_path(),
        ManagerActionView::LoadTls { cert_path, key_path } => cert_path == config.local_cert()
            && key_path == config.local_key(),
        ManagerActionView::SwapAcceptor { cert_path } => cert_path == config.local_cert(),
        ManagerActionView::Sleep { secs, .. } => secs == CHECK_INTERVAL_SECS,
        _ => true,
    }
}

/// One event keeps what holds.
proof fn lemma_loop_step(
    config: LetsEncryptView,
    phase: ManagerPhaseView,
    event: ManagerEventView,
)
    requires
        phase_inv(config, phase),
        phase.accepts(event),
    ensures
        phase_inv(config, manager_next(config, phase, event).0),
        action_inv(config, manager_next(config, phase, event).1),
{
    match (phase, event) {
        (ManagerPhaseView::Provisioning(provision), ManagerEventView::Provision(e)) => {
            lemma_provision_step(config, provision, e);
        },
        _ => {
            lemma_provision_start(config);
        },
    }
}

/// What holds after every course of events.
proof fn lemma_loop(config: LetsEncryptView, events: Seq<ManagerEventView>)
    requires
        is_loop(config, events),
    ensures
        phase_inv(config, state_after(config, events).0),
        action_inv(config, state_after(config, events).1),
    decreases events.len(),
{
    if events.len() > 0 {
        lemma_loop(config, events.drop_last());
        lemma_loop_step(config, state_after(config, events.drop_last()).0, events.last());
    }
}

/// Every check looks at the metadata where it is stored; a new certificate is
/// loaded from where the server keeps it, and it is the one that the server
/// changes to; and the checks are a day apart.
pub proof fn law_actions_of_the_loop(config: LetsEncryptView, events: Seq<ManagerEventView>)
    requires
        is_loop(config, events),
    ensures
        match state_after(config, events).1 {
            ManagerActionView::LoadMetadata { path } => path == config.metadata_path(),
            ManagerActionView::LoadTls { cert_path, key_path } => cert_path == config.local_cert()
                && key_path == config.local_key(),
            ManagerActionView::SwapAcceptor { cert_path } => cert_path == config.local_cert(),
            ManagerActionView::Sleep { secs, .. } => secs == 86_400,
            _ => true,
        },
{
    lemma_loop(config, events);
}

/// The server changes to a new acceptor exactly as often as a replacement of
/// the certificate is reported, but for a change that is under way. So a check
/// that fails, or finds the certificate valid, leaves the acceptor as it is.
pub proof fn law_swaps_are_renewals(config: LetsEncryptView, events: Seq<ManagerEventView>)
    requires
        is_loop(config, events),
    ensures
        count_swaps(config, events) == count_renewals(config, events) + (if state_after(
            config,
            events,
        ).0 is Swapping {
            1nat
        } else {
            0
        }),
    decreases events.len(),
{
    if events.len() > 0 {
        law_swaps_are_renewals(config, events.drop_last());
    }
}

/// The loop never ends: what a check came to is followed by a wait, and the
/// wait by the next check.
pub proof fn law_checks_go_on(config: LetsEncryptView, events: Seq<ManagerEventView>)
    requires
        is_loop(config, events),
    ensures
        state_after(config, events).1 is Sleep <==> state_after(config, events).0 is Resting,
        state_after(config, events).0 is Resting ==> is_loop(
            config,
            events.push(ManagerEventView::Slept),
        ) && state_after(config, events.push(ManagerEventView::Slept)) == check_start(config),
{
    let more = events.push(ManagerEventView::Slept);
    assert(more.drop_last() == events);
    if events.len() > 0 {
        let phase = state_after(config, events.drop_last()).0;
        assert(phase.accepts(events.last()));
    }
}

/// Whether a check that began with these events has not ended.
pub open spec fn still_checking(config: LetsEncryptView, events: Seq<ManagerEventView>) -> bool
    decreases events.len(),
{
    events.len() == 0 || {
        &&& still_checking(config, events.drop_last())
        &&& !(state_after(config, events).0 is Resting)
    }
}

/// The most events that a check can still take.
spec fn check_rank(phase: ManagerPhaseView) -> int {
    match phase {
        ManagerPhaseView::Resting => 0,
        ManagerPhaseView::Loading => MAX_EVENTS + 4,
        ManagerPhaseView::Provisioning(provision) => provision_rank(provision) + 3,
        ManagerPhaseView::LoadingTls(_) => 3,
        ManagerPhaseView::CreatingAcceptor(_) => 2,
        ManagerPhaseView::Swapping(_) => 1,
    }
}

/// Events use up what a check can still take.
proof fn lemma_check_rank(config: LetsEncryptView, events: Seq<ManagerEventView>)
    requires
        is_loop(config, events),
        still_checking(config, events),
    ensures
        events.len() + check_rank(state_after(config, events).0) <= MAX_EVENTS + 4,
        check_rank(state_after(config, events).0) > 0,
    decreases events.len(),
{
    lemma_loop(config, events);
    if events.len() > 0 {
        let before = events.drop_last();
        lemma_check_rank(config, before);
        lemma_loop(config, before);
        match (state_after(config, before).0, events.last()) {
            (ManagerPhaseView::Provisioning(provision), ManagerEventView::Provision(e)) => {
                lemma_provision_step(config, provision, e);
            },
            _ => {
                lemma_provision_start(config);
            },
        }
    }
}

/// A check comes to an end, however each of its steps turns out: it takes no
/// more events than the answer to whether the certificate is due, those of
/// obtaining one, and three for the change to it.
pub proof fn law_check_ends(config: LetsEncryptView, events: Seq<ManagerEventView>)
    requires
        is_loop(config, events),
        still_checking(config, events),
    ensures
        events.len() < MAX_EVENTS + 4,
{
    lemma_check_rank(config, events);
}

/// Metadata is stored where the next check loads it.
pub proof fn law_metadata_is_loaded_where_it_is_stored(
    config: LetsEncryptView,
    events: Seq<EventView>,
    i: int,
)
    requires
        is_course(config, events),
        0 <= i < actions(config, events).len(),
        actions(config, events)[i] is WriteMetadata,
    ensures
        check_start(config).1 == (ManagerActionView::LoadMetadata {
            path: actions(config, events)[i]->WriteMetadata_path,
        }),
    decreases events.len(),
{
    if events.len() > 0 {
        let earlier = actions(config, events.drop_last());
        if i < earlier.len() {
            law_metadata_is_loaded_where_it_is_stored(config, events.drop_last(), i);
        }
    }
}

/// What a check does with what is stored, at an instant: it begins to obtain a
/// certificate where there is no metadata, and where the certificate expires in
/// less than thirty days or has expired; else it reports that nothing was done,
/// and the next check is a day later.
pub proof fn law_check_by_what_is_stored(
    config: LetsEncryptView,
    stored: StoredMetadata,
    now: UtcTime,
)
    requires
        now.wf(),
        now.nanos < 1_000_000_000,
        stored matches StoredMetadata::Found(m) ==> m@.wf() && m@.has_renewal_threshold(),
    ensures
        ({
            let (phase, action) = manager_next(
                config,
                ManagerPhaseView::Loading,
                ManagerEventView::Checked { due: is_due(stored, now) },
            );
            let obtain = phase is Provisioning && action == ManagerActionView::Provision(
                ActionView::InspectPair { cert: config.live_cert(), key: config.live_key() },
            );
            let leave = phase is Resting && action == (ManagerActionView::Sleep {
                secs: 86_400,
                outcome: Ok(false),
            });
            match stored {
                StoredMetadata::Found(m) => {
                    let left = (m.expires_at.secs - now.secs) * 1_000_000_000 + m.expires_at.nanos
                        - now.nanos;
                    &&& left < 2_592_000 * 1_000_000_000 ==> obtain
                    &&& left >= 2_592_000 * 1_000_000_000 ==> leave
                },
                _ => obtain,
            }
        }),
{
    match stored {
        StoredMetadata::Found(m) => {
            law_due_in_the_last_thirty_days(m@, now);
        },
        _ => {},
    }
}

/// The events of obtaining a certificate, as events of the loop.
pub open spec fn as_loop_events(events: Seq<EventView>) -> Seq<ManagerEventView> {
    events.map_values(|e: EventView| ManagerEventView::Provision(e))
}

/// Where a certificate is due, the loop goes through the course of obtaining
/// one. What is obtained is loaded from where its metadata says, and where
/// nothing is obtained the failure is reported and the next check is a day
/// later.
pub proof fn law_due_certificate_is_obtained(
    config: LetsEncryptView,
    before: Seq<ManagerEventView>,
    events: Seq<EventView>,
)
    requires
        is_loop(config, before),
        state_after(config, before).0 is Loading,
        is_course(config, events),
    ensures
        ({
            let all = before.push(ManagerEventView::Checked { due: true }) + as_loop_events(events);
            &&& is_loop(config, all)
            &&& state_after(config, all) == match outcome(config, events) {
                ProgressView::Continue(provision, action) => (
                    ManagerPhaseView::Provisioning(provision),
                    ManagerActionView::Provision(action),
                ),
                ProgressView::Finished(Ok(m)) => (
                    ManagerPhaseView::LoadingTls(m),
                    ManagerActionView::LoadTls { cert_path: m.cert_path, key_path: m.key_path },
                ),
                ProgressView::Finished(Err(failure)) => (
                    ManagerPhaseView::Resting,
                    ManagerActionView::Sleep {
                        secs: 86_400,
                        outcome: Err(RenewalErrorView::Provision(failure)),
                    },
                ),
            }
        }),
    decreases events.len(),
{
    let begun = before.push(ManagerEventView::Checked { due: true });
    let all = begun + as_loop_events(events);
    assert(begun.drop_last() == before);
    if events.len() == 0 {
        assert(all == begun);
    } else {
        law_due_certificate_is_obtained(config, before, events.drop_last());
        assert(all.drop_last() == begun + as_loop_events(events.drop_last()));
        assert(all.last() == ManagerEventView::Provision(events.last()));
    }
}

/// Once it is obtained, a certificate is loaded, made into an acceptor, and put
/// to use, in this order, and only then is it reported as replaced. What goes
/// wrong on the way is reported instead, with its reason.
pub proof fn law_change_to_a_new_certificate(
    config: LetsEncryptView,
    events: Seq<ManagerEventView>,
    why: Seq<char>,
)
    requires
        is_loop(config, events),
    ensures
        ({
            let phase = state_after(config, events).0;
            let after = |e: ManagerEventView| state_after(config, events.push(e));
            &&& phase is LoadingTls ==> after(ManagerEventView::TlsLoaded).1
                == ManagerActionView::CreateAcceptor && (after(
                ManagerEventView::TlsLoaded,
            ).0 is CreatingAcceptor)
            &&& phase is LoadingTls ==> reports_error(
                after(ManagerEventView::TlsFailed(why)),
                "Failed to load TLS config: "@ + why,
            )
            &&& phase is CreatingAcceptor ==> after(ManagerEventView::AcceptorCreated).1 == (
            ManagerActionView::SwapAcceptor { cert_path: config.local_cert() }) && (after(
                ManagerEventView::AcceptorCreated,
            ).0 is Swapping)
            &&& phase is CreatingAcceptor ==> reports_error(
                after(ManagerEventView::AcceptorFailed(why)),
                "Failed to create acceptor: "@ + why,
            )
            &&& phase is Swapping ==> after(ManagerEventView::Swapped) == (
                ManagerPhaseView::Resting,
                ManagerActionView::Sleep { secs: 86_400, outcome: Ok(true) },
            )
            &&& phase is Resting ==> after(ManagerEventView::Slept).1 == (
            ManagerActionView::LoadMetadata { path: config.metadata_path() })
        }),
{
    lemma_loop(config, events);
    assert(events.push(ManagerEventView::TlsLoaded).drop_last() == events);
    assert(events.push(ManagerEventView::TlsFailed(why)).drop_last() == events);
    assert(events.push(ManagerEventView::AcceptorCreated).drop_last() == events);
    assert(events.push(ManagerEventView::AcceptorFailed(why)).drop_last() == events);
    assert(events.push(ManagerEventView::Swapped).drop_last() == events);
    assert(events.push(ManagerEventView::Slept).drop_last() == events);
}

/// Whether a check has ended with an error that reads so, and the next is a day
/// later.
pub open spec fn reports_error(
    state: (ManagerPhaseView, ManagerActionView),
    message: Seq<char>,
) -> bool {
    &&& state.0 is Resting
    &&& state.1 matches ManagerActionView::Sleep { secs, outcome } && secs == 86_400 && (
    outcome matches Err(e) && e.text() == message)
}

/// The error of a check that obtained no certificate reads as the failure does.
pub proof fn law_text_of_a_failed_renewal(error: RenewalErrorView)
    ensures
        match error {
            RenewalErrorView::Provision(failure) => error.text() == failure.text(),
            RenewalErrorView::LoadTls(why) => error.text() == "Failed to load TLS config: "@ + why,
            RenewalErrorView::CreateAcceptor(why) => error.text() == "Failed to create acceptor: "@
                + why,
        },
{
}

} // verus!
