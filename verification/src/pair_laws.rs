//! Which certificate and key the server has once one was obtained: those of the
//! command that obtained them.

use vstd::prelude::*;

use crate::acme::{LetsEncryptView, MetadataView};
use crate::clock::UtcTime;
use crate::provision::{
    copy_cert, copy_key, is_new_pair, live_pair, local_pair, new_metadata, provision_next,
    replace_cert, replace_key, ActionView, AttemptView, EventView, PairStamp, PhaseView,
    ProgressView, ProvisionView,
};
use crate::provision_laws::{actions, is_course, outcome, reports_success};

verus! {

/// Whether the command reported success between two looks at the server's
/// certificate and key, of which the `k`-th event is the second.
pub open spec fn looked_after_command(
    config: LetsEncryptView,
    asked: Seq<ActionView>,
    events: Seq<EventView>,
    k: int,
) -> bool {
    &&& 3 <= k < events.len()
    &&& k < asked.len()
    &&& asked[k - 3] == local_pair(config)
    &&& events[k - 3] is Pair
    &&& asked[k - 1] is RunCommand
    &&& reports_success(events[k - 1])
    &&& asked[k] == local_pair(config)
    &&& events[k] is Pair
}

/// Whether the second look found what the command left there.
pub open spec fn found_new(
    config: LetsEncryptView,
    asked: Seq<ActionView>,
    events: Seq<EventView>,
    k: int,
) -> bool {
    looked_after_command(config, asked, events, k) && is_new_pair(
        events[k - 3]->Pair_0,
        events[k]->Pair_0,
    )
}

/// Whether the second look found nothing that the command left there.
pub open spec fn found_stale(
    config: LetsEncryptView,
    asked: Seq<ActionView>,
    events: Seq<EventView>,
    k: int,
) -> bool {
    looked_after_command(config, asked, events, k) && !is_new_pair(
        events[k - 3]->Pair_0,
        events[k]->Pair_0,
    )
}

/// Whether what certbot keeps, as the `k`-th event tells, is other than it was
/// before the first attempt, as the first event tells.
pub open spec fn live_is_new(events: Seq<EventView>, k: int) -> bool {
    is_new_pair(events[0]->Pair_0, events[k]->Pair_0)
}

/// Whether, after such a look, certbot was found to keep a certificate and key
/// that the server is to have: new ones, or any where the server has none.
pub open spec fn found_live(
    config: LetsEncryptView,
    asked: Seq<ActionView>,
    events: Seq<EventView>,
    k: int,
) -> bool {
    &&& found_stale(config, asked, events, k)
    &&& k + 1 < events.len()
    &&& k + 1 < asked.len()
    &&& asked[k + 1] == live_pair(config)
    &&& events[k + 1] matches EventView::Pair(live) && live is Some
    &&& events[k]->Pair_0 is None || live_is_new(events, k + 1)
}

/// Whether the `j`-th action and the next made copies of both files that
/// certbot keeps.
pub open spec fn both_copied(
    config: LetsEncryptView,
    asked: Seq<ActionView>,
    events: Seq<EventView>,
    j: int,
    aside: bool,
) -> bool {
    &&& 0 <= j
    &&& j + 1 < events.len()
    &&& j + 1 < asked.len()
    &&& asked[j] == copy_cert(config, aside)
    &&& events[j] is Succeeded
    &&& asked[j + 1] == copy_key(config, aside)
    &&& events[j + 1] is Succeeded
}

/// Whether, at the `d`-th action, what the command left is in place.
pub open spec fn left_by_command(
    config: LetsEncryptView,
    asked: Seq<ActionView>,
    events: Seq<EventView>,
    d: int,
) -> bool {
    found_new(config, asked, events, d - 1)
}

/// Whether, at the `d`-th action, copies of what certbot keeps are in place,
/// where there was no certificate and key.
pub open spec fn copied_from_live(
    config: LetsEncryptView,
    asked: Seq<ActionView>,
    events: Seq<EventView>,
    d: int,
) -> bool {
    &&& found_live(config, asked, events, d - 4)
    &&& events[d - 4]->Pair_0 is None
    &&& both_copied(config, asked, events, d - 2, false)
}

/// Whether, at the `d`-th action, copies of what certbot keeps are in place of
/// the earlier certificate and key.
pub open spec fn replaced_from_live(
    config: LetsEncryptView,
    asked: Seq<ActionView>,
    events: Seq<EventView>,
    d: int,
) -> bool {
    &&& found_live(config, asked, events, d - 6)
    &&& events[d - 6]->Pair_0 is Some
    &&& both_copied(config, asked, events, d - 4, true)
    &&& d <= events.len()
    &&& d <= asked.len()
    &&& asked[d - 2] == replace_cert(config)
    &&& events[d - 2] is Succeeded
    &&& asked[d - 1] == replace_key(config)
    &&& events[d - 1] is Succeeded
}

/// Whether, at the `d`-th action, the earlier certificate and key are still in
/// place, because the command left no others anywhere.
pub open spec fn kept_earlier(
    config: LetsEncryptView,
    asked: Seq<ActionView>,
    events: Seq<EventView>,
    d: int,
) -> bool {
    &&& found_stale(config, asked, events, d - 2)
    &&& events[d - 2]->Pair_0 is Some
    &&& d <= events.len()
    &&& d <= asked.len()
    &&& asked[d - 1] == live_pair(config)
    &&& events[d - 1] is Pair
    &&& !live_is_new(events, d - 1)
}

/// Whether, at the `d`-th action, the certificate and key to be served are in
/// place.
pub open spec fn pair_in_place(
    config: LetsEncryptView,
    asked: Seq<ActionView>,
    events: Seq<EventView>,
    d: int,
) -> bool {
    ||| left_by_command(config, asked, events, d)
    ||| copied_from_live(config, asked, events, d)
    ||| replaced_from_live(config, asked, events, d)
    ||| kept_earlier(config, asked, events, d)
}

/// What the events so far say of the two looks at the server's certificate and
/// key, by how far an attempt has come.
spec fn looks_inv(
    config: LetsEncryptView,
    attempt: AttemptView,
    asked: Seq<ActionView>,
    events: Seq<EventView>,
) -> bool {
    let n = events.len() as int;
    match attempt {
        AttemptView::CreatingDir => true,
        AttemptView::InspectingBefore => asked[n] == local_pair(config),
        AttemptView::ReadingTemplate { before } => {
            &&& n >= 1
            &&& asked[n - 1] == local_pair(config)
            &&& events[n - 1] == EventView::Pair(before)
        },
        AttemptView::RunningCommand { before } => {
            &&& n >= 2
            &&& asked[n - 2] == local_pair(config)
            &&& events[n - 2] == EventView::Pair(before)
            &&& asked[n] is RunCommand
        },
        AttemptView::InspectingLocal { before } => {
            &&& n >= 3
            &&& asked[n - 3] == local_pair(config)
            &&& events[n - 3] == EventView::Pair(before)
            &&& asked[n - 1] is RunCommand
            &&& reports_success(events[n - 1])
            &&& asked[n] == local_pair(config)
        },
        AttemptView::InspectingLive { local } => {
            &&& found_stale(config, asked, events, n - 1)
            &&& local == events[n - 1]->Pair_0 is Some
            &&& asked[n] == live_pair(config)
        },
        AttemptView::CopyingCert { aside } => {
            &&& found_live(config, asked, events, n - 2)
            &&& aside == events[n - 2]->Pair_0 is Some
            &&& asked[n] == copy_cert(config, aside)
        },
        AttemptView::CopyingKey { aside } => {
            &&& found_live(config, asked, events, n - 3)
            &&& aside == events[n - 3]->Pair_0 is Some
            &&& asked[n - 1] == copy_cert(config, aside)
            &&& events[n - 1] is Succeeded
            &&& asked[n] == copy_key(config, aside)
        },
        AttemptView::RenamingCert => {
            &&& found_live(config, asked, events, n - 4)
            &&& events[n - 4]->Pair_0 is Some
            &&& both_copied(config, asked, events, n - 2, true)
            &&& asked[n] == replace_cert(config)
        },
        AttemptView::RenamingKey => {
            &&& found_live(config, asked, events, n - 5)
            &&& events[n - 5]->Pair_0 is Some
            &&& both_copied(config, asked, events, n - 3, true)
            &&& asked[n - 1] == replace_cert(config)
            &&& events[n - 1] is Succeeded
            &&& asked[n] == replace_key(config)
        },
        AttemptView::ReadingDates => {
            &&& asked[n] == ActionView::ReadDates(config.local_cert())
            &&& pair_in_place(config, asked, events, n)
        },
        AttemptView::SavingDir(m) => dates_read(config, asked, events, n - 1, m),
        AttemptView::SavingFile(m) => dates_read(config, asked, events, n - 2, m),
    }
}

/// Whether metadata has the dates that were read, at the `d`-th action, of the
/// certificate that was in place.
pub open spec fn dates_read(
    config: LetsEncryptView,
    asked: Seq<ActionView>,
    events: Seq<EventView>,
    d: int,
    metadata: MetadataView,
) -> bool {
    &&& 0 <= d < events.len()
    &&& d < asked.len()
    &&& asked[d] == ActionView::ReadDates(config.local_cert())
    &&& events[d] == (EventView::Dates {
        expires_at: metadata.expires_at,
        issued_at: metadata.issued_at,
    })
    &&& pair_in_place(config, asked, events, d)
}

/// What holds after every course of events.
spec fn pair_inv(config: LetsEncryptView, events: Seq<EventView>) -> bool {
    let asked = actions(config, events);
    let n = events.len() as int;
    match outcome(config, events) {
        ProgressView::Continue(provision, action) => {
            &&& asked.len() == n + 1
            &&& asked[n] == action
            &&& action is RunCommand || action is ReadDates || action is CopyFile
                || action is RenameFile ==> provision.phase is Trying
            &&& provision.phase is Starting <==> n == 0
            &&& n > 0 ==> {
                &&& asked[0] == live_pair(config)
                &&& events[0] == EventView::Pair(provision.live_before)
            }
            &&& provision.phase matches PhaseView::Trying(attempt) ==> {
                &&& looks_inv(config, attempt, asked, events)
                &&& action is RunCommand ==> attempt is RunningCommand
                &&& action is ReadDates ==> attempt is ReadingDates
                &&& action is CopyFile ==> attempt is CopyingCert || attempt is CopyingKey
                &&& action is RenameFile ==> attempt is RenamingCert || attempt is RenamingKey
            }
        },
        ProgressView::Finished(Ok(m)) => {
            &&& asked.len() == n
            &&& dates_read(config, asked, events, n - 3, m)
        },
        ProgressView::Finished(Err(_)) => asked.len() == n,
    }
}

/// What holds after every course of events.
proof fn lemma_pair_inv(config: LetsEncryptView, events: Seq<EventView>)
    requires
        is_course(config, events),
    ensures
        pair_inv(config, events),
    decreases events.len(),
{
    if events.len() > 0 {
        lemma_pair_inv(config, events.drop_last());
    }
}

/// The state of a course at its `i`-th action, which is also that of the course
/// up to there.
pub(crate) proof fn lemma_prefix(config: LetsEncryptView, events: Seq<EventView>, i: int)
    requires
        is_course(config, events),
        0 <= i < actions(config, events).len(),
    ensures
        i <= events.len(),
        is_course(config, events.take(i)),
        outcome(config, events.take(i)) matches ProgressView::Continue(provision, action)
            && actions(config, events)[i] == action && (i < events.len() ==> provision.accepts(
            events[i],
        )),
        forall|j: int|
            0 <= j <= i ==> #[trigger] actions(config, events)[j] == actions(
                config,
                events.take(i),
            )[j],
    decreases events.len(),
{
    lemma_pair_inv(config, events);
    if i == events.len() {
        assert(events.take(i) == events);
    } else {
        let before = events.drop_last();
        lemma_pair_inv(config, before);
        lemma_prefix(config, before, i);
        assert(before.take(i) == events.take(i));
        assert(i == before.len() ==> before.take(i) == before);
    }
}

/// One event of a course leads from the state at its action to the next.
pub(crate) proof fn lemma_step(config: LetsEncryptView, events: Seq<EventView>, i: int) -> (provision:
    ProvisionView)
    requires
        is_course(config, events),
        0 <= i < events.len(),
    ensures
        i < actions(config, events).len(),
        is_course(config, events.take(i)),
        outcome(config, events.take(i)) == ProgressView::Continue(
            provision,
            actions(config, events)[i],
        ),
        provision.accepts(events[i]),
        outcome(config, events.take(i + 1)) == provision_next(config, provision, events[i]),
        provision_next(config, provision, events[i]) matches ProgressView::Continue(_, action)
            ==> i + 1 < actions(config, events).len() && actions(config, events)[i + 1] == action,
{
    lemma_pair_inv(config, events);
    lemma_prefix(config, events, i);
    let provision = outcome(config, events.take(i))->Continue_0;
    assert(events.take(i + 1).drop_last() == events.take(i));
    assert(events.take(i + 1).last() == events[i]);
    if i + 1 == events.len() {
        assert(events.take(i + 1) == events);
    } else {
        lemma_prefix(config, events, i + 1);
    }
    provision
}

/// The state at a look that followed the command: the attempt remembers what
/// the first look found.
proof fn lemma_look(config: LetsEncryptView, events: Seq<EventView>, k: int) -> (before: Option<
    PairStamp,
>)
    requires
        is_course(config, events),
        looked_after_command(config, actions(config, events), events, k),
    ensures
        events[k - 3] == EventView::Pair(before),
        outcome(config, events.take(k)) matches ProgressView::Continue(provision, _)
            && provision.phase == PhaseView::Trying(AttemptView::InspectingLocal { before })
            && EventView::Pair(provision.live_before) == events[0],
{
    let ran = lemma_step(config, events, k - 1);
    lemma_pair_inv(config, events.take(k - 1));
    let looked = lemma_step(config, events, k);
    lemma_pair_inv(config, events.take(k));
    looked.phase->Trying_0->InspectingLocal_before
}

/// How far the attempt has come that asks for the `d`-th action, where that
/// moves a file or looks up dates, and what the events before it say.
proof fn lemma_at(config: LetsEncryptView, events: Seq<EventView>, d: int) -> (attempt: AttemptView)
    requires
        is_course(config, events),
        0 <= d < actions(config, events).len(),
        actions(config, events)[d] is CopyFile || actions(config, events)[d] is RenameFile
            || actions(config, events)[d] is ReadDates,
    ensures
        actions(config, events)[d] is ReadDates ==> attempt is ReadingDates,
        actions(config, events)[d] is CopyFile ==> attempt is CopyingCert || attempt is CopyingKey,
        actions(config, events)[d] is RenameFile ==> attempt is RenamingCert
            || attempt is RenamingKey,
        attempt is ReadingDates ==> actions(config, events)[d] == ActionView::ReadDates(
            config.local_cert(),
        ) && pair_in_place(config, actions(config, events), events, d),
        attempt is CopyingCert ==> found_live(config, actions(config, events), events, d - 2),
        attempt is CopyingKey ==> found_live(config, actions(config, events), events, d - 3),
        attempt is RenamingCert ==> found_live(config, actions(config, events), events, d - 4)
            && both_copied(config, actions(config, events), events, d - 2, true),
        attempt is RenamingKey ==> found_live(config, actions(config, events), events, d - 5)
            && both_copied(config, actions(config, events), events, d - 3, true),
{
    let asked = actions(config, events);
    lemma_prefix(config, events, d);
    let upto = events.take(d);
    lemma_pair_inv(config, upto);
    let asked_upto = actions(config, upto);
    assert(forall|j: int| 0 <= j <= d ==> #[trigger] asked_upto[j] == asked[j]);
    assert(forall|j: int| 0 <= j < d ==> #[trigger] upto[j] == events[j]);
    outcome(config, upto)->Continue_0.phase->Trying_0
}

/// Wherever the dates of a certificate are looked up, it is the server's own,
/// and it and its key are in place: as the command left them there; as copies of
/// what certbot keeps, where that is new or the server had none; or, where the
/// command left no others anywhere, as they were.
pub proof fn law_dates_are_of_the_pair_in_place(
    config: LetsEncryptView,
    events: Seq<EventView>,
    d: int,
)
    requires
        is_course(config, events),
        0 <= d < actions(config, events).len(),
        actions(config, events)[d] is ReadDates,
    ensures
        actions(config, events)[d] == ActionView::ReadDates(config.local_cert()),
        pair_in_place(config, actions(config, events), events, d),
{
    let attempt = lemma_at(config, events, d);
}

/// Where the command succeeds and leaves the server's certificate and key as
/// they were, and certbot keeps a certificate and key that it did not keep
/// before the first attempt, both of the latter are copied and take the place of
/// the server's before any dates are looked up.
pub proof fn law_stale_pair_is_replaced(config: LetsEncryptView, events: Seq<EventView>, k: int)
    requires
        is_course(config, events),
        found_stale(config, actions(config, events), events, k),
        events[k]->Pair_0 is Some,
        k + 1 < events.len(),
        events[k + 1] is Pair,
        live_is_new(events, k + 1),
    ensures
        ({
            let asked = actions(config, events);
            let n = events.len();
            &&& asked.len() > k + 2
            &&& asked[k + 1] == live_pair(config)
            &&& asked[k + 2] == copy_cert(config, true)
            &&& n > k + 2 && events[k + 2] is Succeeded ==> {
                &&& asked.len() > k + 3
                &&& asked[k + 3] == copy_key(config, true)
            }
            &&& both_copied(config, asked, events, k + 2, true) ==> {
                &&& asked.len() > k + 4
                &&& asked[k + 4] == replace_cert(config)
                &&& n > k + 4 && events[k + 4] is Succeeded ==> {
                    &&& asked.len() > k + 5
                    &&& asked[k + 5] == replace_key(config)
                    &&& n > k + 5 && events[k + 5] is Succeeded ==> {
                        &&& asked.len() > k + 6
                        &&& asked[k + 6] == ActionView::ReadDates(config.local_cert())
                    }
                }
            }
            &&& forall|d: int|
                k < d <= k + 6 && d < asked.len() && (#[trigger] asked[d]) is ReadDates ==> {
                    &&& d == k + 6
                    &&& replaced_from_live(config, asked, events, d)
                }
        }),
{
    let asked = actions(config, events);
    let n = events.len();
    let before = lemma_look(config, events, k);
    let looked = lemma_step(config, events, k);
    let live = lemma_step(config, events, k + 1);
    lemma_pair_inv(config, events);
    if n > k + 2 {
        let cert = lemma_step(config, events, k + 2);
        if n > k + 3 {
            let key = lemma_step(config, events, k + 3);
            if n > k + 4 {
                let replaced = lemma_step(config, events, k + 4);
                if n > k + 5 {
                    let replaced_both = lemma_step(config, events, k + 5);
                }
            }
        }
    }
    assert forall|d: int|
        k < d <= k + 6 && d < asked.len() && (#[trigger] asked[d]) is ReadDates implies d == k + 6
        && replaced_from_live(config, asked, events, d) by {
        law_dates_are_of_the_pair_in_place(config, events, d);
        assert(asked[k + 1] == live_pair(config) && asked[k + 2] == copy_cert(config, true));
    }
}

/// Where the command succeeds and the server has no certificate and key, but
/// certbot keeps some, both are copied to where the server keeps its own.
pub proof fn law_missing_pair_is_copied(config: LetsEncryptView, events: Seq<EventView>, k: int)
    requires
        is_course(config, events),
        looked_after_command(config, actions(config, events), events, k),
        events[k]->Pair_0 is None,
        k + 1 < events.len(),
        events[k + 1] matches EventView::Pair(live) && live is Some,
    ensures
        ({
            let asked = actions(config, events);
            let n = events.len();
            &&& asked.len() > k + 2
            &&& asked[k + 1] == live_pair(config)
            &&& asked[k + 2] == copy_cert(config, false)
            &&& n > k + 2 && events[k + 2] is Succeeded ==> {
                &&& asked.len() > k + 3
                &&& asked[k + 3] == copy_key(config, false)
            }
            &&& both_copied(config, asked, events, k + 2, false) ==> {
                &&& asked.len() > k + 4
                &&& asked[k + 4] == ActionView::ReadDates(config.local_cert())
            }
        }),
{
    let before = lemma_look(config, events, k);
    let looked = lemma_step(config, events, k);
    let live = lemma_step(config, events, k + 1);
    if events.len() > k + 2 {
        let cert = lemma_step(config, events, k + 2);
        if events.len() > k + 3 {
            let key = lemma_step(config, events, k + 3);
        }
    }
}

/// Where the command succeeds and leaves the server's certificate and key as
/// they were, and what certbot keeps, if anything, is as it was before the first
/// attempt, the server's own stay and are taken at once.
pub proof fn law_untouched_pair_is_kept(config: LetsEncryptView, events: Seq<EventView>, k: int)
    requires
        is_course(config, events),
        found_stale(config, actions(config, events), events, k),
        events[k]->Pair_0 is Some,
        k + 1 < events.len(),
        events[k + 1] is Pair,
        !live_is_new(events, k + 1),
    ensures
        actions(config, events).len() > k + 2,
        actions(config, events)[k + 1] == live_pair(config),
        actions(config, events)[k + 2] == ActionView::ReadDates(config.local_cert()),
{
    let before = lemma_look(config, events, k);
    let looked = lemma_step(config, events, k);
    let live = lemma_step(config, events, k + 1);
}

/// A file is copied or renamed only where the command left no certificate and
/// key in the certificate directory, and those that certbot keeps are new, or
/// the server has none. So where the command changed neither, and the server has
/// a certificate and key, nothing is copied.
pub proof fn law_copies_are_called_for(config: LetsEncryptView, events: Seq<EventView>, d: int)
    requires
        is_course(config, events),
        0 <= d < actions(config, events).len(),
        actions(config, events)[d] is CopyFile || actions(config, events)[d] is RenameFile,
    ensures
        exists|k: int|
            d - 5 <= k < d && #[trigger] found_live(config, actions(config, events), events, k),
{
    let asked = actions(config, events);
    let attempt = lemma_at(config, events, d);
    let k = match attempt {
        AttemptView::CopyingCert { .. } => d - 2,
        AttemptView::CopyingKey { .. } => d - 3,
        AttemptView::RenamingCert => d - 4,
        _ => d - 5,
    };
    assert(found_live(config, asked, events, k));
}

/// The server's certificate and key are replaced only once copies of both files
/// that take their place have been made.
pub proof fn law_replaced_by_complete_copies(
    config: LetsEncryptView,
    events: Seq<EventView>,
    d: int,
)
    requires
        is_course(config, events),
        0 <= d < actions(config, events).len(),
        actions(config, events)[d] is RenameFile,
    ensures
        exists|j: int|
            d - 3 <= j < d - 1 && #[trigger] both_copied(
                config,
                actions(config, events),
                events,
                j,
                true,
            ),
{
    let asked = actions(config, events);
    let attempt = lemma_at(config, events, d);
    let j = if attempt is RenamingCert {
        d - 2
    } else {
        d - 3
    };
    assert(both_copied(config, asked, events, j, true));
}

/// Where the command succeeds and leaves a certificate and key in the
/// certificate directory, these are taken as they are.
pub proof fn law_new_pair_is_taken(config: LetsEncryptView, events: Seq<EventView>, k: int)
    requires
        is_course(config, events),
        found_new(config, actions(config, events), events, k),
    ensures
        actions(config, events).len() > k + 1,
        actions(config, events)[k + 1] == ActionView::ReadDates(config.local_cert()),
{
    let before = lemma_look(config, events, k);
    let looked = lemma_step(config, events, k);
}

/// The metadata of a certificate that was obtained has the dates of the one in
/// place, which were looked up as the last thing before it was stored.
pub proof fn law_obtained_pair_is_in_place(
    config: LetsEncryptView,
    events: Seq<EventView>,
    metadata: MetadataView,
)
    requires
        is_course(config, events),
        outcome(config, events) == ProgressView::Finished(Ok(metadata)),
    ensures
        dates_read(config, actions(config, events), events, events.len() - 3, metadata),
{
    lemma_pair_inv(config, events);
}

/// The events of an attempt in which the command succeeds, the server has the
/// same certificate and key before and after it, their dates are found, and the
/// metadata is stored.
pub open spec fn untouched_events(
    live_before: Option<PairStamp>,
    pair: PairStamp,
    template: Option<Seq<char>>,
    status: Seq<char>,
    live: Option<PairStamp>,
    expires_at: UtcTime,
    issued_at: UtcTime,
) -> Seq<EventView> {
    seq![
        EventView::Pair(live_before),
        EventView::Succeeded,
        EventView::Pair(Some(pair)),
        EventView::Template(template),
        EventView::CommandExited { success: true, status },
        EventView::Pair(Some(pair)),
        EventView::Pair(live),
        EventView::Dates { expires_at, issued_at },
        EventView::Succeeded,
        EventView::Succeeded,
    ]
}

/// Where the command succeeds and leaves the server's certificate and key as
/// they were, the certificate that is obtained is the server's own, whatever
/// certbot keeps, as long as the command did not change that either.
pub proof fn law_untouched_pair_is_obtained(
    config: LetsEncryptView,
    live_before: Option<PairStamp>,
    pair: PairStamp,
    template: Option<Seq<char>>,
    status: Seq<char>,
    live: Option<PairStamp>,
    expires_at: UtcTime,
    issued_at: UtcTime,
)
    requires
        !is_new_pair(live_before, live),
    ensures
        ({
            let events = untouched_events(
                live_before,
                pair,
                template,
                status,
                live,
                expires_at,
                issued_at,
            );
            &&& is_course(config, events)
            &&& outcome(config, events) == ProgressView::Finished(
                Ok(new_metadata(config, expires_at, issued_at)),
            )
        }),
{
    reveal_with_fuel(outcome, 11);
    reveal_with_fuel(is_course, 11);
}

} // verus!
