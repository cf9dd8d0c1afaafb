//! The renewal loop: once a day the certificate is checked and, where it is
//! due, replaced without interrupting the server.

use vstd::prelude::*;
use vstd::string::*;

use crate::acme::{
    CertificateMetadata, LetsEncryptConfig, LetsEncryptView, MetadataView, StoredMetadata,
};
use crate::clock::{clock_reading, given_by_clock, UtcTime};
use crate::provision::{
    provision_next, provision_start, Action, ActionView, Event, EventView, Progress, ProgressView,
    Provision, ProvisionFailure, ProvisionFailureView, ProvisionView,
};

verus! {

/// How many seconds pass between two checks.
pub const CHECK_INTERVAL_SECS: u64 = 86_400;

/// Why a check failed.
#[derive(Debug)]
pub enum RenewalError {
    /// No certificate was obtained.
    Provision(ProvisionFailure),
    /// The new certificate and key could not be loaded; the text says why.
    LoadTls(String),
    /// No acceptor could be made of them; the text says why.
    CreateAcceptor(String),
}

/// The mathematical content of [`RenewalError`].
pub enum RenewalErrorView {
    Provision(ProvisionFailureView),
    LoadTls(Seq<char>),
    CreateAcceptor(Seq<char>),
}

impl View for RenewalError {
    type V = RenewalErrorView;

    open spec fn view(&self) -> RenewalErrorView {
        match self {
            RenewalError::Provision(failure) => RenewalErrorView::Provision(failure@),
            RenewalError::LoadTls(why) => RenewalErrorView::LoadTls(why@),
            RenewalError::CreateAcceptor(why) => RenewalErrorView::CreateAcceptor(why@),
        }
    }
}

impl RenewalErrorView {
    /// The error's text.
    pub open spec fn text(self) -> Seq<char> {
        match self {
            RenewalErrorView::Provision(failure) => failure.text(),
            RenewalErrorView::LoadTls(why) => "Failed to load TLS config: "@ + why,
            RenewalErrorView::CreateAcceptor(why) => "Failed to create acceptor: "@ + why,
        }
    }
}

impl RenewalError {
    /// The error's text.
    pub fn message(&self) -> (message: String)
        ensures
            message@ == self@.text(),
    {
        match self {
            RenewalError::Provision(failure) => failure.message(),
            RenewalError::LoadTls(why) => "Failed to load TLS config: ".to_string().concat(
                why.as_str(),
            ),
            RenewalError::CreateAcceptor(why) => "Failed to create acceptor: ".to_string().concat(
                why.as_str(),
            ),
        }
    }
}

/// What the loop waits for.
#[derive(Debug)]
pub enum ManagerPhase {
    /// The next check.
    Resting,
    /// The stored metadata.
    Loading,
    /// A new certificate.
    Provisioning(Provision),
    /// The files of the new certificate.
    LoadingTls(CertificateMetadata),
    /// An acceptor made of them.
    CreatingAcceptor(CertificateMetadata),
    /// The server's change to the new acceptor.
    Swapping(CertificateMetadata),
}

/// The mathematical content of [`ManagerPhase`].
pub enum ManagerPhaseView {
    Resting,
    Loading,
    Provisioning(ProvisionView),
    LoadingTls(MetadataView),
    CreatingAcceptor(MetadataView),
    Swapping(MetadataView),
}

impl View for ManagerPhase {
    type V = ManagerPhaseView;

    open spec fn view(&self) -> ManagerPhaseView {
        match self {
            ManagerPhase::Resting => ManagerPhaseView::Resting,
            ManagerPhase::Loading => ManagerPhaseView::Loading,
            ManagerPhase::Provisioning(provision) => ManagerPhaseView::Provisioning(provision@),
            ManagerPhase::LoadingTls(m) => ManagerPhaseView::LoadingTls(m@),
            ManagerPhase::CreatingAcceptor(m) => ManagerPhaseView::CreatingAcceptor(m@),
            ManagerPhase::Swapping(m) => ManagerPhaseView::Swapping(m@),
        }
    }
}

/// Something for the server to do.
#[derive(Debug)]
pub enum ManagerAction {
    /// Load the stored metadata.
    LoadMetadata { path: String },
    /// Do something to obtain a certificate.
    Provision(Action),
    /// Load a certificate and its key.
    LoadTls { cert_path: String, key_path: String },
    /// Make an acceptor of what was loaded.
    CreateAcceptor,
    /// Use the new acceptor from now on.
    SwapAcceptor { cert_path: String },
    /// Report what came of the check, that is whether the certificate was
    /// replaced, and wait.
    Sleep { secs: u64, outcome: Result<bool, RenewalError> },
}

/// The mathematical content of [`ManagerAction`].
pub enum ManagerActionView {
    LoadMetadata { path: Seq<char> },
    Provision(ActionView),
    LoadTls { cert_path: Seq<char>, key_path: Seq<char> },
    CreateAcceptor,
    SwapAcceptor { cert_path: Seq<char> },
    Sleep { secs: u64, outcome: Result<bool, RenewalErrorView> },
}

impl View for ManagerAction {
    type V = ManagerActionView;

    open spec fn view(&self) -> ManagerActionView {
        match self {
            ManagerAction::LoadMetadata { path } => ManagerActionView::LoadMetadata { path: path@ },
            ManagerAction::Provision(action) => ManagerActionView::Provision(action@),
            ManagerAction::LoadTls { cert_path, key_path } => ManagerActionView::LoadTls {
                cert_path: cert_path@,
                key_path: key_path@,
            },
            ManagerAction::CreateAcceptor => ManagerActionView::CreateAcceptor,
            ManagerAction::SwapAcceptor { cert_path } => ManagerActionView::SwapAcceptor {
                cert_path: cert_path@,
            },
            ManagerAction::Sleep { secs, outcome } => ManagerActionView::Sleep {
                secs: *secs,
                outcome: match outcome {
                    Ok(renewed) => Ok(*renewed),
                    Err(e) => Err(e@),
                },
            },
        }
    }
}

/// What came of an action of the server.
#[derive(Debug)]
pub enum ManagerEvent {
    /// What came of an action to obtain a certificate.
    Provision(Event),
    /// The certificate and its key were loaded.
    TlsLoaded,
    /// They were not; the text says why.
    TlsFailed(String),
    /// An acceptor was made.
    AcceptorCreated,
    /// It was not; the text says why.
    AcceptorFailed(String),
    /// The server uses the new acceptor.
    Swapped,
    /// The wait is over.
    Slept,
}

/// The mathematical content of [`ManagerEvent`], and the answer to whether the
/// certificate is due.
pub enum ManagerEventView {
    Checked { due: bool },
    Provision(EventView),
    TlsLoaded,
    TlsFailed(Seq<char>),
    AcceptorCreated,
    AcceptorFailed(Seq<char>),
    Swapped,
    Slept,
}

impl View for ManagerEvent {
    type V = ManagerEventView;

    open spec fn view(&self) -> ManagerEventView {
        match self {
            ManagerEvent::Provision(event) => ManagerEventView::Provision(event@),
            ManagerEvent::TlsLoaded => ManagerEventView::TlsLoaded,
            ManagerEvent::TlsFailed(why) => ManagerEventView::TlsFailed(why@),
            ManagerEvent::AcceptorCreated => ManagerEventView::AcceptorCreated,
            ManagerEvent::AcceptorFailed(why) => ManagerEventView::AcceptorFailed(why@),
            ManagerEvent::Swapped => ManagerEventView::Swapped,
            ManagerEvent::Slept => ManagerEventView::Slept,
        }
    }
}

impl ManagerPhaseView {
    /// Whether this can come about in the loop.
    pub open spec fn wf(self) -> bool {
        self matches ManagerPhaseView::Provisioning(provision) ==> provision.wf()
    }

    /// Whether an event answers what the loop waits for.
    pub open spec fn accepts(self, event: ManagerEventView) -> bool {
        match self {
            ManagerPhaseView::Resting => event is Slept,
            ManagerPhaseView::Loading => event is Checked,
            ManagerPhaseView::Provisioning(provision) => event matches ManagerEventView::Provision(
                e,
            ) && provision.accepts(e),
            ManagerPhaseView::LoadingTls(_) => event is TlsLoaded || event is TlsFailed,
            ManagerPhaseView::CreatingAcceptor(_) => event is AcceptorCreated
                || event is AcceptorFailed,
            ManagerPhaseView::Swapping(_) => event is Swapped,
        }
    }
}

/// A check begins: the stored metadata is loaded.
pub open spec fn check_start(config: LetsEncryptView) -> (ManagerPhaseView, ManagerActionView) {
    (
        ManagerPhaseView::Loading,
        ManagerActionView::LoadMetadata { path: config.metadata_path() },
    )
}

/// A check ends: what came of it is reported, and the loop waits.
pub open spec fn check_end(outcome: Result<bool, RenewalErrorView>) -> (
    ManagerPhaseView,
    ManagerActionView,
) {
    (
        ManagerPhaseView::Resting,
        ManagerActionView::Sleep { secs: CHECK_INTERVAL_SECS, outcome },
    )
}

/// What an event means for the loop. A certificate that is due is obtained and
/// loaded, and the server changes to it. What goes wrong ends the check, and
/// the loop goes on all the same.
pub open spec fn manager_next(
    config: LetsEncryptView,
    phase: ManagerPhaseView,
    event: ManagerEventView,
) -> (ManagerPhaseView, ManagerActionView) {
    match (phase, event) {
        (ManagerPhaseView::Resting, ManagerEventView::Slept) => check_start(config),
        (ManagerPhaseView::Loading, ManagerEventView::Checked { due }) => if due {
            let (provision, action) = provision_start(config);
            (ManagerPhaseView::Provisioning(provision), ManagerActionView::Provision(action))
        } else {
            check_end(Ok(false))
        },
        (ManagerPhaseView::Provisioning(provision), ManagerEventView::Provision(e)) =>
            match provision_next(config, provision, e) {
            ProgressView::Continue(next, action) => (
                ManagerPhaseView::Provisioning(next),
                ManagerActionView::Provision(action),
            ),
            ProgressView::Finished(Ok(m)) => (
                ManagerPhaseView::LoadingTls(m),
                ManagerActionView::LoadTls { cert_path: m.cert_path, key_path: m.key_path },
            ),
            ProgressView::Finished(Err(failure)) => check_end(
                Err(RenewalErrorView::Provision(failure)),
            ),
        },
        (ManagerPhaseView::LoadingTls(m), ManagerEventView::TlsLoaded) => (
            ManagerPhaseView::CreatingAcceptor(m),
            ManagerActionView::CreateAcceptor,
        ),
        (ManagerPhaseView::LoadingTls(_), ManagerEventView::TlsFailed(why)) => check_end(
            Err(RenewalErrorView::LoadTls(why)),
        ),
        (ManagerPhaseView::CreatingAcceptor(m), ManagerEventView::AcceptorCreated) => (
            ManagerPhaseView::Swapping(m),
            ManagerActionView::SwapAcceptor { cert_path: m.cert_path },
        ),
        (ManagerPhaseView::CreatingAcceptor(_), ManagerEventView::AcceptorFailed(why)) => check_end(
            Err(RenewalErrorView::CreateAcceptor(why)),
        ),
        (ManagerPhaseView::Swapping(_), ManagerEventView::Swapped) => check_end(Ok(true)),
        _ => arbitrary(),
    }
}

/// Whether a certificate is due for renewal at an instant, by what was found
/// where its metadata is stored.
pub open spec fn is_due(stored: StoredMetadata, now: UtcTime) -> bool {
    match stored {
        StoredMetadata::Found(m) => m@.renewal_due(now),
        _ => true,
    }
}

/// The renewal loop of one certificate.
#[derive(Debug)]
pub struct CertificateManager {
    pub config: LetsEncryptConfig,
    pub phase: ManagerPhase,
}

impl CertificateManager {
    /// A loop that has not begun.
    pub fn new(config: LetsEncryptConfig) -> (manager: Self)
        ensures
            manager.config == config,
            manager.phase@ == ManagerPhaseView::Resting,
    {
        CertificateManager { config, phase: ManagerPhase::Resting }
    }

    /// Begins the loop with a first check.
    pub fn start_renewal_loop(&mut self) -> (action: ManagerAction)
        ensures
            final(self).config == old(self).config,
            (final(self).phase@, action@) == check_start(old(self).config@),
    {
        self.phase = ManagerPhase::Loading;
        ManagerAction::LoadMetadata { path: self.config.metadata_path() }
    }

    /// Ends a check.
    fn finish_check(&mut self, outcome: Result<bool, RenewalError>) -> (action: ManagerAction)
        ensures
            final(self).config == old(self).config,
            (final(self).phase@, action@) == check_end(
                match outcome {
                    Ok(renewed) => Ok(renewed),
                    Err(e) => Err(e@),
                },
            ),
    {
        self.phase = ManagerPhase::Resting;
        ManagerAction::Sleep { secs: CHECK_INTERVAL_SECS, outcome }
    }

    /// Goes on with a check once it is known whether the certificate is due.
    pub fn renew_if(&mut self, due: bool) -> (action: ManagerAction)
        requires
            old(self).phase@ is Loading,
        ensures
            final(self).config == old(self).config,
            (final(self).phase@, action@) == manager_next(
                old(self).config@,
                old(self).phase@,
                ManagerEventView::Checked { due },
            ),
            final(self).phase@.wf(),
    {
        if due {
            let (provision, action) = self.config.provision_certificate();
            self.phase = ManagerPhase::Provisioning(provision);
            ManagerAction::Provision(action)
        } else {
            self.finish_check(Ok(false))
        }
    }

    /// Goes on with a check, at an instant, by what was found where the metadata
    /// is stored. A certificate is due where no metadata could be loaded, and
    /// else where its renewal has begun.
    pub fn check_and_renew_at(&mut self, stored: StoredMetadata, now: &UtcTime) -> (action:
        ManagerAction)
        requires
            old(self).phase@ is Loading,
            stored matches StoredMetadata::Found(m) ==> m@.wf() && m@.has_renewal_threshold(),
        ensures
            final(self).config == old(self).config,
            (final(self).phase@, action@) == manager_next(
                old(self).config@,
                old(self).phase@,
                ManagerEventView::Checked { due: is_due(stored, *now) },
            ),
            final(self).phase@.wf(),
    {
        let due: bool = match self.config.load_metadata(stored) {
            Some(metadata) => self.config.needs_renewal_at(&metadata, now),
            None => true,
        };
        self.renew_if(due)
    }

    /// Goes on with a check by what was found where the metadata is stored. A
    /// certificate is due where no metadata could be loaded, and else by what
    /// the clock gives, which is read only then.
    pub fn check_and_renew(&mut self, stored: StoredMetadata) -> (action: ManagerAction)
        requires
            old(self).phase@ is Loading,
            stored matches StoredMetadata::Found(m) ==> m@.wf() && m@.has_renewal_threshold(),
        ensures
            final(self).config == old(self).config,
            exists|due: bool|
                {
                    &&& (final(self).phase@, action@) == #[trigger] manager_next(
                        old(self).config@,
                        old(self).phase@,
                        ManagerEventView::Checked { due },
                    )
                    &&& match stored {
                        StoredMetadata::Found(m) => {
                            &&& exists|now: UtcTime| #[trigger]
                                given_by_clock(now) && clock_reading(now) && due
                                    == m@.renewal_due(now)
                            &&& m@.renewal_threshold().secs < 0 ==> due
                        },
                        _ => due,
                    }
                },
            final(self).phase@.wf(),
    {
        match stored {
            StoredMetadata::Found(metadata) => {
                let now: UtcTime = crate::clock::utc_now();
                assert(given_by_clock(now));
                self.check_and_renew_at(StoredMetadata::Found(metadata), &now)
            },
            _ => self.renew_if(true),
        }
    }

    /// Whether an event answers what the loop waits for.
    pub fn accepts(&self, event: &ManagerEvent) -> (fits: bool)
        ensures
            fits == self.phase@.accepts(event@),
    {
        match &self.phase {
            ManagerPhase::Resting => matches!(event, ManagerEvent::Slept),
            ManagerPhase::Loading => false,
            ManagerPhase::Provisioning(provision) => match event {
                ManagerEvent::Provision(e) => provision.accepts(e),
                _ => false,
            },
            ManagerPhase::LoadingTls(_) => matches!(event, ManagerEvent::TlsLoaded) || matches!(
                event,
                ManagerEvent::TlsFailed(_)
            ),
            ManagerPhase::CreatingAcceptor(_) => matches!(event, ManagerEvent::AcceptorCreated)
                || matches!(event, ManagerEvent::AcceptorFailed(_)),
            ManagerPhase::Swapping(_) => matches!(event, ManagerEvent::Swapped),
        }
    }

    /// Goes on with the loop after an event.
    pub fn advance(&mut self, event: ManagerEvent) -> (action: ManagerAction)
        requires
            old(self).phase@.wf(),
            old(self).phase@.accepts(event@),
        ensures
            final(self).config == old(self).config,
            (final(self).phase@, action@) == manager_next(
                old(self).config@,
                old(self).phase@,
                event@,
            ),
            final(self).phase@.wf(),
    {
        let mut phase: ManagerPhase = ManagerPhase::Resting;
        std::mem::swap(&mut self.phase, &mut phase);
        match (phase, event) {
            (ManagerPhase::Resting, ManagerEvent::Slept) => self.start_renewal_loop(),
            (ManagerPhase::Provisioning(provision), ManagerEvent::Provision(e)) =>
                match self.config.step_provision(provision, e) {
                Progress::Continue(next, action) => {
                    self.phase = ManagerPhase::Provisioning(next);
                    ManagerAction::Provision(action)
                },
                Progress::Finished(Ok(m)) => self.reload_acceptor(m),
                Progress::Finished(Err(failure)) => self.finish_check(
                    Err(RenewalError::Provision(failure)),
                ),
            },
            (ManagerPhase::LoadingTls(m), ManagerEvent::TlsLoaded) => {
                self.phase = ManagerPhase::CreatingAcceptor(m);
                ManagerAction::CreateAcceptor
            },
            (ManagerPhase::LoadingTls(_), ManagerEvent::TlsFailed(why)) => self.finish_check(
                Err(RenewalError::LoadTls(why)),
            ),
            (ManagerPhase::CreatingAcceptor(m), ManagerEvent::AcceptorCreated) => {
                let cert_path: String = m.cert_path.clone();
                self.phase = ManagerPhase::Swapping(m);
                ManagerAction::SwapAcceptor { cert_path }
            },
            (ManagerPhase::CreatingAcceptor(_), ManagerEvent::AcceptorFailed(why)) =>
                self.finish_check(Err(RenewalError::CreateAcceptor(why))),
            (ManagerPhase::Swapping(_), ManagerEvent::Swapped) => self.finish_check(Ok(true)),
            _ => vstd::pervasive::unreached(),
        }
    }

    /// Begins the change to a new certificate by loading it.
    fn reload_acceptor(&mut self, metadata: CertificateMetadata) -> (action: ManagerAction)
        ensures
            final(self).config == old(self).config,
            final(self).phase@ == ManagerPhaseView::LoadingTls(metadata@),
            action@ == (ManagerActionView::LoadTls {
                cert_path: metadata@.cert_path,
                key_path: metadata@.key_path,
            }),
    {
        let cert_path: String = metadata.cert_path.clone();
        let key_path: String = metadata.key_path.clone();
        self.phase = ManagerPhase::LoadingTls(metadata);
        ManagerAction::LoadTls { cert_path, key_path }
    }
}

/// What the loop waits for is what its last action can come to, and nothing
/// else.
pub proof fn law_answers_that_the_loop_accepts(phase: ManagerPhaseView, event: ManagerEventView)
    ensures
        phase.accepts(event) <==> match event {
            ManagerEventView::Checked { .. } => phase is Loading,
            ManagerEventView::Provision(e) => (phase matches ManagerPhaseView::Provisioning(
                provision,
            ) && provision.accepts(e)),
            ManagerEventView::TlsLoaded | ManagerEventView::TlsFailed(_) => phase is LoadingTls,
            ManagerEventView::AcceptorCreated => phase is CreatingAcceptor,
            ManagerEventView::AcceptorFailed(_) => phase is CreatingAcceptor,
            ManagerEventView::Swapped => phase is Swapping,
            ManagerEventView::Slept => phase is Resting,
        },
{
}

} // verus!
