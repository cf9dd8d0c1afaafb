//! How a certificate is obtained: what is asked of the outside world, step by
//! step, and what follows from each answer.

use vstd::prelude::*;
use vstd::string::*;

use crate::acme::{
    opt_view, CertificateMetadata, LetsEncryptConfig, LetsEncryptView, MetadataView, SavePlan,
};
use crate::clock::UtcTime;
use crate::text;

verus! {

/// How often obtaining a certificate is tried.
pub const MAX_RETRIES: u32 = 3;

/// How many seconds pass between two attempts.
pub const RETRY_DELAY_SECS: u64 = 5;

/// How many seconds the command that obtains a certificate may take.
pub const COMMAND_TIMEOUT_SECS: u64 = 120;

/// What tells one state of a file from another: when it was last modified, and
/// how many bytes it holds.
#[derive(Clone, Copy, Debug, PartialEq, Eq, Structural)]
pub struct FileStamp {
    pub modified: UtcTime,
    pub len: u64,
}

/// The states of a certificate and of its private key.
#[derive(Clone, Copy, Debug, PartialEq, Eq, Structural)]
pub struct PairStamp {
    pub cert: FileStamp,
    pub key: FileStamp,
}

/// Whether a certificate and its key, as they were found before and after, are
/// other than they were: both files are there now, and before they were not, or
/// one of the two was in another state.
pub open spec fn is_new_pair(before: Option<PairStamp>, after: Option<PairStamp>) -> bool {
    after is Some && before != after
}

/// Whether a certificate and its key are other than they were.
pub fn pair_is_new(before: Option<PairStamp>, after: Option<PairStamp>) -> (new: bool)
    ensures
        new == is_new_pair(before, after),
{
    match (before, after) {
        (_, None) => false,
        (None, Some(_)) => true,
        (Some(b), Some(a)) => b != a,
    }
}

/// Something to do outside.
#[derive(Debug)]
pub enum Action {
    /// Create a directory and those above it, where they do not exist.
    CreateDir(String),
    /// Look up the template of the command in the environment.
    ReadTemplate,
    /// Run a command in a shell, for a limited time.
    RunCommand { command: String, timeout_secs: u64 },
    /// See whether a certificate and its private key are there, and in which
    /// state.
    InspectPair { cert: String, key: String },
    /// Look up the dates of a certificate.
    ReadDates(String),
    /// Copy a file.
    CopyFile { from: String, to: String },
    /// Rename a file, in place of any that has the name.
    RenameFile { from: String, to: String },
    /// Write metadata to a file.
    WriteMetadata { path: String, metadata: CertificateMetadata },
    /// Wait.
    Sleep(u64),
}

/// The mathematical content of [`Action`].
pub enum ActionView {
    CreateDir(Seq<char>),
    ReadTemplate,
    RunCommand { command: Seq<char>, timeout_secs: u64 },
    InspectPair { cert: Seq<char>, key: Seq<char> },
    ReadDates(Seq<char>),
    CopyFile { from: Seq<char>, to: Seq<char> },
    RenameFile { from: Seq<char>, to: Seq<char> },
    WriteMetadata { path: Seq<char>, metadata: MetadataView },
    Sleep(u64),
}

impl View for Action {
    type V = ActionView;

    open spec fn view(&self) -> ActionView {
        match self {
            Action::CreateDir(dir) => ActionView::CreateDir(dir@),
            Action::ReadTemplate => ActionView::ReadTemplate,
            Action::RunCommand { command, timeout_secs } => ActionView::RunCommand {
                command: command@,
                timeout_secs: *timeout_secs,
            },
            Action::InspectPair { cert, key } => ActionView::InspectPair { cert: cert@, key: key@ },
            Action::ReadDates(path) => ActionView::ReadDates(path@),
            Action::CopyFile { from, to } => ActionView::CopyFile { from: from@, to: to@ },
            Action::RenameFile { from, to } => ActionView::RenameFile { from: from@, to: to@ },
            Action::WriteMetadata { path, metadata } => ActionView::WriteMetadata {
                path: path@,
                metadata: metadata@,
            },
            Action::Sleep(secs) => ActionView::Sleep(*secs),
        }
    }
}

/// What came of an action.
#[derive(Debug)]
pub enum Event {
    /// A directory was created, a file copied, renamed or written.
    Succeeded,
    /// It was not; the text says why.
    Failed(String),
    /// The template of the command, if one is configured.
    Template(Option<String>),
    /// The command took too long.
    CommandTimedOut,
    /// The command could not be started.
    CommandNotSpawned,
    /// The command ended; the text describes its status.
    CommandExited { success: bool, status: String },
    /// The states of the two files, if both are there.
    Pair(Option<PairStamp>),
    /// The dates of the certificate.
    Dates { expires_at: UtcTime, issued_at: UtcTime },
    /// The wait is over.
    Slept,
}

/// The mathematical content of [`Event`].
pub enum EventView {
    Succeeded,
    Failed(Seq<char>),
    Template(Option<Seq<char>>),
    CommandTimedOut,
    CommandNotSpawned,
    CommandExited { success: bool, status: Seq<char> },
    Pair(Option<PairStamp>),
    Dates { expires_at: UtcTime, issued_at: UtcTime },
    Slept,
}

impl View for Event {
    type V = EventView;

    open spec fn view(&self) -> EventView {
        match self {
            Event::Succeeded => EventView::Succeeded,
            Event::Failed(why) => EventView::Failed(why@),
            Event::Template(template) => EventView::Template(opt_view(*template)),
            Event::CommandTimedOut => EventView::CommandTimedOut,
            Event::CommandNotSpawned => EventView::CommandNotSpawned,
            Event::CommandExited { success, status } => EventView::CommandExited {
                success: *success,
                status: status@,
            },
            Event::Pair(pair) => EventView::Pair(*pair),
            Event::Dates { expires_at, issued_at } => EventView::Dates {
                expires_at: *expires_at,
                issued_at: *issued_at,
            },
            Event::Slept => EventView::Slept,
        }
    }
}

/// Why an attempt failed.
#[derive(Debug)]
pub enum ProvisionError {
    /// The certificate directory could not be created.
    CreateDir { cert_dir: String },
    /// The command took too long.
    TimedOut,
    /// The command could not be started.
    NotSpawned,
    /// The command reported failure.
    ExitStatus { status: String },
    /// A file could not be copied or renamed.
    Copy { why: String },
    /// The metadata could not be stored.
    Save { why: String },
    /// The command reported success, but no certificate was found.
    NotFound { local_cert: String, live_cert: String },
}

/// The mathematical content of [`ProvisionError`].
pub enum ProvisionErrorView {
    CreateDir { cert_dir: Seq<char> },
    TimedOut,
    NotSpawned,
    ExitStatus { status: Seq<char> },
    Copy { why: Seq<char> },
    Save { why: Seq<char> },
    NotFound { local_cert: Seq<char>, live_cert: Seq<char> },
}

impl View for ProvisionError {
    type V = ProvisionErrorView;

    open spec fn view(&self) -> ProvisionErrorView {
        match self {
            ProvisionError::CreateDir { cert_dir } => ProvisionErrorView::CreateDir {
                cert_dir: cert_dir@,
            },
            ProvisionError::TimedOut => ProvisionErrorView::TimedOut,
            ProvisionError::NotSpawned => ProvisionErrorView::NotSpawned,
            ProvisionError::ExitStatus { status } => ProvisionErrorView::ExitStatus {
                status: status@,
            },
            ProvisionError::Copy { why } => ProvisionErrorView::Copy { why: why@ },
            ProvisionError::Save { why } => ProvisionErrorView::Save { why: why@ },
            ProvisionError::NotFound { local_cert, live_cert } => ProvisionErrorView::NotFound {
                local_cert: local_cert@,
                live_cert: live_cert@,
            },
        }
    }
}

impl ProvisionErrorView {
    /// The error's text.
    pub open spec fn text(self) -> Seq<char> {
        match self {
            ProvisionErrorView::CreateDir { cert_dir } => "creating cert_dir "@ + cert_dir,
            ProvisionErrorView::TimedOut => "ACME command timed out"@,
            ProvisionErrorView::NotSpawned => "failed to spawn ACME command"@,
            ProvisionErrorView::ExitStatus { status } =>
                "ACME command exited with non-zero status: "@ + status,
            ProvisionErrorView::Copy { why } => why,
            ProvisionErrorView::Save { why } => why,
            ProvisionErrorView::NotFound { local_cert, live_cert } =>
                "ACME command succeeded but cert files not found in known locations (tried "@
                + local_cert + ", "@ + live_cert + ")"@,
        }
    }
}

impl ProvisionError {
    /// The error's text.
    pub fn message(&self) -> (message: String)
        ensures
            message@ == self@.text(),
    {
        match self {
            ProvisionError::CreateDir { cert_dir } => "creating cert_dir ".to_string().concat(
                cert_dir.as_str(),
            ),
            ProvisionError::TimedOut => "ACME command timed out".to_string(),
            ProvisionError::NotSpawned => "failed to spawn ACME command".to_string(),
            ProvisionError::ExitStatus { status } =>
                "ACME command exited with non-zero status: ".to_string().concat(status.as_str()),
            ProvisionError::Copy { why } => why.clone(),
            ProvisionError::Save { why } => why.clone(),
            ProvisionError::NotFound { local_cert, live_cert } =>
                "ACME command succeeded but cert files not found in known locations (tried "
                .to_string().concat(local_cert.as_str()).concat(", ").concat(
                live_cert.as_str(),
            ).concat(")"),
        }
    }
}

/// How far one attempt has come: what it waits for.
#[derive(Debug)]
pub enum Attempt {
    CreatingDir,
    /// The states of the server's certificate and key before the command.
    InspectingBefore,
    ReadingTemplate { before: Option<PairStamp> },
    RunningCommand { before: Option<PairStamp> },
    /// Their states after the command.
    InspectingLocal { before: Option<PairStamp> },
    /// The states of what certbot keeps. The server has a certificate and key,
    /// or it has not; either way the command left none there.
    InspectingLive { local: bool },
    /// Copies of what certbot keeps, aside where the server has a certificate
    /// and key already.
    CopyingCert { aside: bool },
    CopyingKey { aside: bool },
    /// The replacement of the server's certificate and key by the copies.
    RenamingCert,
    RenamingKey,
    ReadingDates,
    SavingDir(CertificateMetadata),
    SavingFile(CertificateMetadata),
}

/// The mathematical content of [`Attempt`].
pub enum AttemptView {
    CreatingDir,
    InspectingBefore,
    ReadingTemplate { before: Option<PairStamp> },
    RunningCommand { before: Option<PairStamp> },
    InspectingLocal { before: Option<PairStamp> },
    InspectingLive { local: bool },
    CopyingCert { aside: bool },
    CopyingKey { aside: bool },
    RenamingCert,
    RenamingKey,
    ReadingDates,
    SavingDir(MetadataView),
    SavingFile(MetadataView),
}

impl View for Attempt {
    type V = AttemptView;

    open spec fn view(&self) -> AttemptView {
        match self {
            Attempt::CreatingDir => AttemptView::CreatingDir,
            Attempt::InspectingBefore => AttemptView::InspectingBefore,
            Attempt::ReadingTemplate { before } => AttemptView::ReadingTemplate { before: *before },
            Attempt::RunningCommand { before } => AttemptView::RunningCommand { before: *before },
            Attempt::InspectingLocal { before } => AttemptView::InspectingLocal { before: *before },
            Attempt::InspectingLive { local } => AttemptView::InspectingLive { local: *local },
            Attempt::CopyingCert { aside } => AttemptView::CopyingCert { aside: *aside },
            Attempt::CopyingKey { aside } => AttemptView::CopyingKey { aside: *aside },
            Attempt::RenamingCert => AttemptView::RenamingCert,
            Attempt::RenamingKey => AttemptView::RenamingKey,
            Attempt::ReadingDates => AttemptView::ReadingDates,
            Attempt::SavingDir(m) => AttemptView::SavingDir(m@),
            Attempt::SavingFile(m) => AttemptView::SavingFile(m@),
        }
    }
}

/// What follows from an event: another action, or the end of the attempt.
#[derive(Debug)]
pub enum AttemptProgress {
    Continue(Attempt, Action),
    Finished(Result<CertificateMetadata, ProvisionError>),
}

/// The mathematical content of [`AttemptProgress`].
pub enum AttemptProgressView {
    Continue(AttemptView, ActionView),
    Finished(Result<MetadataView, ProvisionErrorView>),
}

impl View for AttemptProgress {
    type V = AttemptProgressView;

    open spec fn view(&self) -> AttemptProgressView {
        match self {
            AttemptProgress::Continue(attempt, action) => AttemptProgressView::Continue(
                attempt@,
                action@,
            ),
            AttemptProgress::Finished(Ok(m)) => AttemptProgressView::Finished(Ok(m@)),
            AttemptProgress::Finished(Err(e)) => AttemptProgressView::Finished(Err(e@)),
        }
    }
}

impl AttemptView {
    /// Whether an event answers what the attempt waits for.
    pub open spec fn accepts(self, event: EventView) -> bool {
        match self {
            AttemptView::InspectingBefore => event is Pair,
            AttemptView::ReadingTemplate { .. } => event is Template,
            AttemptView::RunningCommand { .. } => event is CommandTimedOut
                || event is CommandNotSpawned || event is CommandExited,
            AttemptView::InspectingLocal { .. } => event is Pair,
            AttemptView::InspectingLive { .. } => event is Pair,
            AttemptView::ReadingDates => event is Dates,
            _ => event is Succeeded || event is Failed,
        }
    }
}

/// The metadata of the certificate that an attempt has found, with its dates.
pub open spec fn new_metadata(
    config: LetsEncryptView,
    expires_at: UtcTime,
    issued_at: UtcTime,
) -> MetadataView {
    MetadataView {
        domain: config.domain,
        issued_at,
        expires_at,
        cert_path: config.local_cert(),
        key_path: config.local_key(),
    }
}

/// An attempt goes on.
pub open spec fn proceeds(attempt: AttemptView, action: ActionView) -> AttemptProgressView {
    AttemptProgressView::Continue(attempt, action)
}

/// An attempt fails.
pub open spec fn failed(error: ProvisionErrorView) -> AttemptProgressView {
    AttemptProgressView::Finished(Err(error))
}

/// See in which state the server's certificate and key are.
pub open spec fn local_pair(config: LetsEncryptView) -> ActionView {
    ActionView::InspectPair { cert: config.local_cert(), key: config.local_key() }
}

/// See in which state the certificate and key that certbot keeps are.
pub open spec fn live_pair(config: LetsEncryptView) -> ActionView {
    ActionView::InspectPair { cert: config.live_cert(), key: config.live_key() }
}

/// Copy the certificate that certbot keeps to where the server keeps its own,
/// or aside.
pub open spec fn copy_cert(config: LetsEncryptView, aside: bool) -> ActionView {
    ActionView::CopyFile {
        from: config.live_cert(),
        to: if aside {
            config.next_cert()
        } else {
            config.local_cert()
        },
    }
}

/// Copy the key that certbot keeps to where the server keeps its own, or aside.
pub open spec fn copy_key(config: LetsEncryptView, aside: bool) -> ActionView {
    ActionView::CopyFile {
        from: config.live_key(),
        to: if aside {
            config.next_key()
        } else {
            config.local_key()
        },
    }
}

/// Put the certificate that was copied aside in place of the server's own.
pub open spec fn replace_cert(config: LetsEncryptView) -> ActionView {
    ActionView::RenameFile { from: config.next_cert(), to: config.local_cert() }
}

/// Put the key that was copied aside in place of the server's own.
pub open spec fn replace_key(config: LetsEncryptView) -> ActionView {
    ActionView::RenameFile { from: config.next_key(), to: config.local_key() }
}

/// The certificate and key are in place: look up the dates.
pub open spec fn in_place(config: LetsEncryptView) -> AttemptProgressView {
    proceeds(AttemptView::ReadingDates, ActionView::ReadDates(config.local_cert()))
}

/// No certificate was found.
pub open spec fn not_found(config: LetsEncryptView) -> AttemptProgressView {
    failed(
        ProvisionErrorView::NotFound {
            local_cert: config.local_cert(),
            live_cert: config.live_cert(),
        },
    )
}

/// What an event means for an attempt, where `live_before` is the state of what
/// certbot kept before the first attempt.
///
/// The certificate directory is created and the command is run. A certificate
/// and key that it left in the certificate directory are taken as they are. Else
/// those that certbot keeps are copied there, if they are new or the server has
/// none; earlier ones are replaced once both copies have been made. Else the
/// earlier ones stay. Then the certificate's dates are looked up, and the
/// metadata is stored.
pub open spec fn attempt_next(
    config: LetsEncryptView,
    live_before: Option<PairStamp>,
    attempt: AttemptView,
    event: EventView,
) -> AttemptProgressView {
    match (attempt, event) {
        (AttemptView::CreatingDir, EventView::Succeeded) => proceeds(
            AttemptView::InspectingBefore,
            local_pair(config),
        ),
        (AttemptView::CreatingDir, _) => failed(
            ProvisionErrorView::CreateDir { cert_dir: config.cert_dir },
        ),
        (AttemptView::InspectingBefore, EventView::Pair(before)) => proceeds(
            AttemptView::ReadingTemplate { before },
            ActionView::ReadTemplate,
        ),
        (AttemptView::ReadingTemplate { before }, EventView::Template(template)) => proceeds(
            AttemptView::RunningCommand { before },
            ActionView::RunCommand {
                command: config.acme_command(template),
                timeout_secs: COMMAND_TIMEOUT_SECS,
            },
        ),
        (AttemptView::RunningCommand { .. }, EventView::CommandTimedOut) => failed(
            ProvisionErrorView::TimedOut,
        ),
        (AttemptView::RunningCommand { .. }, EventView::CommandNotSpawned) => failed(
            ProvisionErrorView::NotSpawned,
        ),
        (AttemptView::RunningCommand { before }, EventView::CommandExited { success, status }) =>
            if success {
            proceeds(AttemptView::InspectingLocal { before }, local_pair(config))
        } else {
            failed(ProvisionErrorView::ExitStatus { status })
        },
        (AttemptView::InspectingLocal { before }, EventView::Pair(after)) => if is_new_pair(
            before,
            after,
        ) {
            in_place(config)
        } else {
            proceeds(AttemptView::InspectingLive { local: after is Some }, live_pair(config))
        },
        (AttemptView::InspectingLive { local }, EventView::Pair(live)) => if live is Some && (!local
            || is_new_pair(live_before, live)) {
            proceeds(AttemptView::CopyingCert { aside: local }, copy_cert(config, local))
        } else if local {
            in_place(config)
        } else {
            not_found(config)
        },
        (AttemptView::CopyingCert { aside }, EventView::Succeeded) => proceeds(
            AttemptView::CopyingKey { aside },
            copy_key(config, aside),
        ),
        (AttemptView::CopyingCert { .. }, EventView::Failed(why)) => failed(
            ProvisionErrorView::Copy { why },
        ),
        (AttemptView::CopyingKey { aside }, EventView::Succeeded) => if aside {
            proceeds(AttemptView::RenamingCert, replace_cert(config))
        } else {
            in_place(config)
        },
        (AttemptView::CopyingKey { .. }, EventView::Failed(why)) => failed(
            ProvisionErrorView::Copy { why },
        ),
        (AttemptView::RenamingCert, EventView::Succeeded) => proceeds(
            AttemptView::RenamingKey,
            replace_key(config),
        ),
        (AttemptView::RenamingCert, EventView::Failed(why)) => failed(
            ProvisionErrorView::Copy { why },
        ),
        (AttemptView::RenamingKey, EventView::Succeeded) => in_place(config),
        (AttemptView::RenamingKey, EventView::Failed(why)) => failed(
            ProvisionErrorView::Copy { why },
        ),
        (AttemptView::ReadingDates, EventView::Dates { expires_at, issued_at }) => proceeds(
            AttemptView::SavingDir(new_metadata(config, expires_at, issued_at)),
            ActionView::CreateDir(config.cert_dir),
        ),
        (AttemptView::SavingDir(m), EventView::Succeeded) => proceeds(
            AttemptView::SavingFile(m),
            ActionView::WriteMetadata { path: config.metadata_path(), metadata: m },
        ),
        (AttemptView::SavingDir(_), EventView::Failed(why)) => failed(
            ProvisionErrorView::Save { why },
        ),
        (AttemptView::SavingFile(m), EventView::Succeeded) => AttemptProgressView::Finished(Ok(m)),
        (AttemptView::SavingFile(_), EventView::Failed(why)) => failed(
            ProvisionErrorView::Save { why },
        ),
        _ => arbitrary(),
    }
}

impl Attempt {
    /// Whether an event answers what the attempt waits for.
    pub fn accepts(&self, event: &Event) -> (fits: bool)
        ensures
            fits == self@.accepts(event@),
    {
        match self {
            Attempt::InspectingBefore => matches!(event, Event::Pair(_)),
            Attempt::ReadingTemplate { .. } => matches!(event, Event::Template(_)),
            Attempt::RunningCommand { .. } => matches!(event, Event::CommandTimedOut) || matches!(
                event,
                Event::CommandNotSpawned
            ) || matches!(event, Event::CommandExited { .. }),
            Attempt::InspectingLocal { .. } => matches!(event, Event::Pair(_)),
            Attempt::InspectingLive { .. } => matches!(event, Event::Pair(_)),
            Attempt::ReadingDates => matches!(event, Event::Dates { .. }),
            _ => matches!(event, Event::Succeeded) || matches!(event, Event::Failed(_)),
        }
    }
}

impl LetsEncryptConfig {
    /// Begins an attempt.
    pub fn try_provision_certificate(&self) -> (begun: (Attempt, Action))
        ensures
            begun.0@ == AttemptView::CreatingDir,
            begun.1@ == ActionView::CreateDir(self@.cert_dir),
    {
        (Attempt::CreatingDir, Action::CreateDir(self.cert_dir.clone()))
    }

    /// See in which state the server's certificate and key are.
    fn inspect_local(&self) -> (action: Action)
        ensures
            action@ == local_pair(self@),
    {
        Action::InspectPair { cert: self.local_cert(), key: self.local_key() }
    }

    /// See in which state the certificate and key that certbot keeps are.
    fn inspect_live(&self) -> (action: Action)
        ensures
            action@ == live_pair(self@),
    {
        Action::InspectPair { cert: self.live_cert(), key: self.live_key() }
    }

    /// The certificate and key are in place: look up the dates.
    fn look_up_dates(&self) -> (progress: AttemptProgress)
        ensures
            progress@ == in_place(self@),
    {
        AttemptProgress::Continue(Attempt::ReadingDates, Action::ReadDates(self.local_cert()))
    }

    /// No certificate was found.
    fn report_not_found(&self) -> (progress: AttemptProgress)
        ensures
            progress@ == not_found(self@),
    {
        let error: ProvisionError = ProvisionError::NotFound {
            local_cert: self.local_cert(),
            live_cert: self.live_cert(),
        };
        AttemptProgress::Finished(Err(error))
    }

    /// The metadata of the certificate that an attempt has found.
    fn describe_certificate(&self, expires_at: UtcTime, issued_at: UtcTime) -> (metadata:
        CertificateMetadata)
        ensures
            metadata@ == new_metadata(self@, expires_at, issued_at),
    {
        CertificateMetadata {
            domain: self.domain.clone(),
            issued_at,
            expires_at,
            cert_path: self.local_cert(),
            key_path: self.local_key(),
        }
    }

    /// Copies the certificate that certbot keeps, aside or not.
    fn copy_live_cert(&self, aside: bool) -> (progress: AttemptProgress)
        ensures
            progress@ == proceeds(AttemptView::CopyingCert { aside }, copy_cert(self@, aside)),
    {
        let to: String = if aside {
            self.next_cert()
        } else {
            self.local_cert()
        };
        AttemptProgress::Continue(
            Attempt::CopyingCert { aside },
            Action::CopyFile { from: self.live_cert(), to },
        )
    }

    /// Copies the key that certbot keeps, aside or not.
    fn copy_live_key(&self, aside: bool) -> (progress: AttemptProgress)
        ensures
            progress@ == proceeds(AttemptView::CopyingKey { aside }, copy_key(self@, aside)),
    {
        let to: String = if aside {
            self.next_key()
        } else {
            self.local_key()
        };
        AttemptProgress::Continue(
            Attempt::CopyingKey { aside },
            Action::CopyFile { from: self.live_key(), to },
        )
    }

    /// Goes on with an attempt after an event, where `live_before` is the state
    /// of what certbot kept before the first attempt.
    pub fn step_attempt(
        &self,
        live_before: Option<PairStamp>,
        attempt: Attempt,
        event: Event,
    ) -> (progress: AttemptProgress)
        requires
            attempt@.accepts(event@),
        ensures
            progress@ == attempt_next(self@, live_before, attempt@, event@),
    {
        match (attempt, event) {
            (Attempt::CreatingDir, Event::Succeeded) => AttemptProgress::Continue(
                Attempt::InspectingBefore,
                self.inspect_local(),
            ),
            (Attempt::CreatingDir, _) => AttemptProgress::Finished(
                Err(ProvisionError::CreateDir { cert_dir: self.cert_dir.clone() }),
            ),
            (Attempt::InspectingBefore, Event::Pair(before)) => AttemptProgress::Continue(
                Attempt::ReadingTemplate { before },
                Action::ReadTemplate,
            ),
            (Attempt::ReadingTemplate { before }, Event::Template(template)) =>
                AttemptProgress::Continue(
                Attempt::RunningCommand { before },
                Action::RunCommand {
                    command: self.acme_command(template),
                    timeout_secs: COMMAND_TIMEOUT_SECS,
                },
            ),
            (Attempt::RunningCommand { .. }, Event::CommandTimedOut) => AttemptProgress::Finished(
                Err(ProvisionError::TimedOut),
            ),
            (Attempt::RunningCommand { .. }, Event::CommandNotSpawned) => AttemptProgress::Finished(
                Err(ProvisionError::NotSpawned),
            ),
            (Attempt::RunningCommand { before }, Event::CommandExited { success, status }) =>
                if success {
                AttemptProgress::Continue(
                    Attempt::InspectingLocal { before },
                    self.inspect_local(),
                )
            } else {
                AttemptProgress::Finished(Err(ProvisionError::ExitStatus { status }))
            },
            (Attempt::InspectingLocal { before }, Event::Pair(after)) => if pair_is_new(
                before,
                after,
            ) {
                self.look_up_dates()
            } else {
                AttemptProgress::Continue(
                    Attempt::InspectingLive { local: after.is_some() },
                    self.inspect_live(),
                )
            },
            (Attempt::InspectingLive { local }, Event::Pair(live)) => if live.is_some() && (!local
                || pair_is_new(live_before, live)) {
                self.copy_live_cert(local)
            } else if local {
                self.look_up_dates()
            } else {
                self.report_not_found()
            },
            (Attempt::CopyingCert { aside }, Event::Succeeded) => self.copy_live_key(aside),
            (Attempt::CopyingKey { aside }, Event::Succeeded) => if aside {
                AttemptProgress::Continue(
                    Attempt::RenamingCert,
                    Action::RenameFile { from: self.next_cert(), to: self.local_cert() },
                )
            } else {
                self.look_up_dates()
            },
            (Attempt::RenamingCert, Event::Succeeded) => AttemptProgress::Continue(
                Attempt::RenamingKey,
                Action::RenameFile { from: self.next_key(), to: self.local_key() },
            ),
            (Attempt::RenamingKey, Event::Succeeded) => self.look_up_dates(),
            (Attempt::ReadingDates, Event::Dates { expires_at, issued_at }) =>
                AttemptProgress::Continue(
                Attempt::SavingDir(self.describe_certificate(expires_at, issued_at)),
                Action::CreateDir(self.cert_dir.clone()),
            ),
            (Attempt::SavingDir(m), Event::Succeeded) => {
                let plan: SavePlan = self.save_metadata(&m);
                AttemptProgress::Continue(
                    Attempt::SavingFile(m),
                    Action::WriteMetadata { path: plan.path, metadata: plan.metadata },
                )
            },
            (Attempt::SavingFile(m), Event::Succeeded) => AttemptProgress::Finished(Ok(m)),
            (Attempt::SavingDir(_), Event::Failed(why)) => AttemptProgress::Finished(
                Err(ProvisionError::Save { why }),
            ),
            (Attempt::SavingFile(_), Event::Failed(why)) => AttemptProgress::Finished(
                Err(ProvisionError::Save { why }),
            ),
            (_, Event::Failed(why)) => AttemptProgress::Finished(Err(ProvisionError::Copy { why })),
            _ => vstd::pervasive::unreached(),
        }
    }
}

/// What obtaining a certificate waits for.
#[derive(Debug)]
pub enum Phase {
    /// The state of what certbot keeps, before the first attempt.
    Starting,
    /// An attempt is under way.
    Trying(Attempt),
    /// The time between two attempts passes, after one that failed with this.
    Waiting(ProvisionError),
}

/// The mathematical content of [`Phase`].
pub enum PhaseView {
    Starting,
    Trying(AttemptView),
    Waiting(ProvisionErrorView),
}

/// How far obtaining a certificate has come: which attempt it is, counted from
/// one, or after which attempt it waits; and the state of what certbot kept
/// before the first attempt, once that is known.
#[derive(Debug)]
pub struct Provision {
    pub attempt: u32,
    pub live_before: Option<PairStamp>,
    pub phase: Phase,
}

/// The mathematical content of [`Provision`].
pub struct ProvisionView {
    pub attempt: u32,
    pub live_before: Option<PairStamp>,
    pub phase: PhaseView,
}

impl View for Provision {
    type V = ProvisionView;

    open spec fn view(&self) -> ProvisionView {
        ProvisionView {
            attempt: self.attempt,
            live_before: self.live_before,
            phase: match self.phase {
                Phase::Starting => PhaseView::Starting,
                Phase::Trying(attempt) => PhaseView::Trying(attempt@),
                Phase::Waiting(last) => PhaseView::Waiting(last@),
            },
        }
    }
}

/// Why no certificate was obtained: the error of the last attempt.
#[derive(Debug)]
pub struct ProvisionFailure {
    pub attempts: u32,
    pub last: ProvisionError,
}

/// The mathematical content of [`ProvisionFailure`].
pub struct ProvisionFailureView {
    pub attempts: u32,
    pub last: ProvisionErrorView,
}

impl View for ProvisionFailure {
    type V = ProvisionFailureView;

    open spec fn view(&self) -> ProvisionFailureView {
        ProvisionFailureView { attempts: self.attempts, last: self.last@ }
    }
}

impl ProvisionFailureView {
    /// The failure's text.
    pub open spec fn text(self) -> Seq<char> {
        "Certificate provisioning failed after "@ + text::decimal(self.attempts as nat)
            + " attempts: "@ + self.last.text()
    }
}

impl ProvisionFailure {
    /// The failure's text.
    pub fn message(&self) -> (message: String)
        ensures
            message@ == self@.text(),
    {
        let count: String = text::decimal_text(self.attempts as u64);
        let last: String = self.last.message();
        "Certificate provisioning failed after ".to_string().concat(count.as_str()).concat(
            " attempts: ",
        ).concat(last.as_str())
    }
}

/// What follows from an event: another action, or the end.
#[derive(Debug)]
pub enum Progress {
    Continue(Provision, Action),
    Finished(Result<CertificateMetadata, ProvisionFailure>),
}

/// The mathematical content of [`Progress`].
pub enum ProgressView {
    Continue(ProvisionView, ActionView),
    Finished(Result<MetadataView, ProvisionFailureView>),
}

impl View for Progress {
    type V = ProgressView;

    open spec fn view(&self) -> ProgressView {
        match self {
            Progress::Continue(provision, action) => ProgressView::Continue(provision@, action@),
            Progress::Finished(Ok(m)) => ProgressView::Finished(Ok(m@)),
            Progress::Finished(Err(e)) => ProgressView::Finished(Err(e@)),
        }
    }
}

impl ProvisionView {
    /// Whether this is one of the attempts that are made, or the wait for the
    /// next of them.
    pub open spec fn wf(self) -> bool {
        &&& 1 <= self.attempt <= MAX_RETRIES
        &&& self.phase is Starting ==> self.attempt == 1
        &&& self.phase is Waiting ==> self.attempt < MAX_RETRIES
    }

    /// Whether an event answers what is waited for.
    pub open spec fn accepts(self, event: EventView) -> bool {
        match self.phase {
            PhaseView::Starting => event is Pair,
            PhaseView::Trying(attempt) => attempt.accepts(event),
            PhaseView::Waiting(_) => event is Slept,
        }
    }
}

/// Obtaining a certificate begins: see in which state what certbot keeps is.
pub open spec fn provision_start(config: LetsEncryptView) -> (ProvisionView, ActionView) {
    (
        ProvisionView { attempt: 1, live_before: None, phase: PhaseView::Starting },
        live_pair(config),
    )
}

/// An attempt begins, counted from one.
pub open spec fn attempt_start(
    config: LetsEncryptView,
    live_before: Option<PairStamp>,
    attempt: u32,
) -> ProgressView {
    ProgressView::Continue(
        ProvisionView { attempt, live_before, phase: PhaseView::Trying(AttemptView::CreatingDir) },
        ActionView::CreateDir(config.cert_dir),
    )
}

/// What an event means for obtaining a certificate. The first attempt that
/// succeeds gives the certificate. After one that fails comes a wait and
/// another attempt; the error of the last attempt is the one that is reported.
pub open spec fn provision_next(
    config: LetsEncryptView,
    provision: ProvisionView,
    event: EventView,
) -> ProgressView {
    match provision.phase {
        PhaseView::Starting => attempt_start(config, event->Pair_0, provision.attempt),
        PhaseView::Trying(attempt) => match attempt_next(
            config,
            provision.live_before,
            attempt,
            event,
        ) {
            AttemptProgressView::Continue(next, action) => ProgressView::Continue(
                ProvisionView { phase: PhaseView::Trying(next), ..provision },
                action,
            ),
            AttemptProgressView::Finished(Ok(m)) => ProgressView::Finished(Ok(m)),
            AttemptProgressView::Finished(Err(e)) => if provision.attempt < MAX_RETRIES {
                ProgressView::Continue(
                    ProvisionView { phase: PhaseView::Waiting(e), ..provision },
                    ActionView::Sleep(RETRY_DELAY_SECS),
                )
            } else {
                ProgressView::Finished(
                    Err(ProvisionFailureView { attempts: MAX_RETRIES, last: e }),
                )
            },
        },
        PhaseView::Waiting(_) => attempt_start(
            config,
            provision.live_before,
            (provision.attempt + 1) as u32,
        ),
    }
}

impl Provision {
    /// Whether an event answers what is waited for.
    pub fn accepts(&self, event: &Event) -> (fits: bool)
        ensures
            fits == self@.accepts(event@),
    {
        match &self.phase {
            Phase::Starting => matches!(event, Event::Pair(_)),
            Phase::Trying(attempt) => attempt.accepts(event),
            Phase::Waiting(_) => matches!(event, Event::Slept),
        }
    }
}

impl LetsEncryptConfig {
    /// Begins to obtain a certificate.
    pub fn provision_certificate(&self) -> (begun: (Provision, Action))
        ensures
            (begun.0@, begun.1@) == provision_start(self@),
            begun.0@.wf(),
    {
        (
            Provision { attempt: 1, live_before: None, phase: Phase::Starting },
            self.inspect_live(),
        )
    }

    /// Begins an attempt, counted from one.
    fn begin_attempt(&self, live_before: Option<PairStamp>, count: u32) -> (progress: Progress)
        ensures
            progress@ == attempt_start(self@, live_before, count),
    {
        let (attempt, action) = self.try_provision_certificate();
        Progress::Continue(
            Provision { attempt: count, live_before, phase: Phase::Trying(attempt) },
            action,
        )
    }

    /// Goes on obtaining a certificate after an event.
    pub fn step_provision(&self, provision: Provision, event: Event) -> (progress: Progress)
        requires
            provision@.wf(),
            provision@.accepts(event@),
        ensures
            progress@ == provision_next(self@, provision@, event@),
            progress@ matches ProgressView::Continue(next, _) ==> next.wf(),
    {
        let count: u32 = provision.attempt;
        let live_before: Option<PairStamp> = provision.live_before;
        match provision.phase {
            Phase::Starting => match event {
                Event::Pair(live) => self.begin_attempt(live, count),
                _ => vstd::pervasive::unreached(),
            },
            Phase::Trying(attempt) => match self.step_attempt(live_before, attempt, event) {
                AttemptProgress::Continue(next, action) => Progress::Continue(
                    Provision { attempt: count, live_before, phase: Phase::Trying(next) },
                    action,
                ),
                AttemptProgress::Finished(Ok(m)) => Progress::Finished(Ok(m)),
                AttemptProgress::Finished(Err(e)) => if count < MAX_RETRIES {
                    Progress::Continue(
                        Provision { attempt: count, live_before, phase: Phase::Waiting(e) },
                        Action::Sleep(RETRY_DELAY_SECS),
                    )
                } else {
                    Progress::Finished(Err(ProvisionFailure { attempts: MAX_RETRIES, last: e }))
                },
            },
            Phase::Waiting(_) => self.begin_attempt(live_before, count + 1),
        }
    }
}

} // verus!
