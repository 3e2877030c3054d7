//! Start-up of the certificate authority: reload what is on disk, or, only
//! if nothing is there, generate a new root and persist it.
//!
//! The library decides and the caller acts. The caller starts in
//! [`Phase::Start`], hands each [`Event`] to [`step`], performs the
//! [`Action`] that comes back and reports its outcome as the next event,
//! until the action is [`Action::Finish`].

use crate::ca::{countable, CA};
use crate::crypto::{
    certificate_pem, parsed_certificate, parsed_private_key, private_key_pem,
};
use crate::error::{CAError, IoFailure, IoKind};
use crate::store::{
    cert_path, is_text, key_path, opens_certificate, opens_private_key, spec_cert_path,
    spec_key_path, PersistedCredential,
};
use vstd::prelude::*;
use vstd::string::StringExecFns;

verus! {

/// Validity, in days, of a root generated with the default configuration.
pub const CA_DAYS_VALID: u32 = 10 * 365;

/// Where the certificate authority is kept and how long a new one is valid.
#[derive(Debug)]
pub struct Config {
    pub dir: String,
    pub days_valid: u32,
}

/// The mathematical view of a [`Config`].
pub struct ConfigView {
    pub dir: Seq<char>,
    pub days_valid: u32,
}

impl View for Config {
    type V = ConfigView;

    open spec fn view(&self) -> ConfigView {
        ConfigView { dir: self.dir@, days_valid: self.days_valid }
    }
}

impl Default for Config {
    fn default() -> (config: Config)
        ensures
            config.dir@ == "./ssl/"@,
            config.days_valid == CA_DAYS_VALID,
    {
        Config { dir: String::from_str("./ssl/"), days_valid: CA_DAYS_VALID }
    }
}

/// How far start-up has come.
#[derive(Debug)]
pub enum Phase {
    /// Nothing has happened yet.
    Start,
    /// Both files are being read.
    Loading,
    /// Nothing was found; the directory is being created, and once it is
    /// there a new root is built.
    Generating,
    /// A new root was built; both files are being written.
    Saving(CA),
    /// Start-up succeeded with this certificate authority.
    Loaded(CA),
    /// Start-up failed for good.
    Failed(CAError),
}

/// What the caller reports.
#[derive(Debug)]
#[allow(inconsistent_fields)]
pub enum Event {
    /// Start-up is to begin.
    Begin,
    /// Both reads were issued and ended like this.
    Read { cert: Result<Vec<u8>, IoFailure>, key: Result<Vec<u8>, IoFailure> },
    /// Creating the directory ended like this.
    DirectoryEnsured(Result<(), IoFailure>),
    /// Both writes were issued and ended like this.
    Written { cert: Result<(), IoFailure>, key: Result<(), IoFailure> },
}

/// What the caller is to do next.
#[derive(Debug)]
pub enum Action {
    /// Read both files, each whether or not the other fails.
    ReadFiles { cert_path: String, key_path: String },
    /// Create the directory and what is missing above it.
    EnsureDirectory { dir: String },
    /// Write both files.
    WriteFiles { cert_path: String, key_path: String, files: PersistedCredential },
    /// Start-up is over; the phase says how.
    Finish,
    /// The event was not the one awaited and changed nothing.
    Wait,
}

/// The mathematical view of an [`Action`].
pub enum ActionView {
    ReadFiles { cert_path: Seq<char>, key_path: Seq<char> },
    EnsureDirectory { dir: Seq<char> },
    WriteFiles { cert_path: Seq<char>, key_path: Seq<char>, cert: Seq<u8>, key: Seq<u8> },
    Finish,
    Wait,
}

impl View for Action {
    type V = ActionView;

    open spec fn view(&self) -> ActionView {
        match *self {
            Action::ReadFiles { cert_path, key_path } => ActionView::ReadFiles {
                cert_path: cert_path@,
                key_path: key_path@,
            },
            Action::EnsureDirectory { dir } => ActionView::EnsureDirectory { dir: dir@ },
            Action::WriteFiles { cert_path, key_path, files } => ActionView::WriteFiles {
                cert_path: cert_path@,
                key_path: key_path@,
                cert: files.cert@,
                key: files.key@,
            },
            Action::Finish => ActionView::Finish,
            Action::Wait => ActionView::Wait,
        }
    }
}

impl Phase {
    /// Start-up is over.
    pub open spec fn is_final(self) -> bool {
        self is Loaded || self is Failed
    }

    /// Whether start-up is over.
    pub fn finished(&self) -> (b: bool)
        ensures
            b == self.is_final(),
    {
        match self {
            Phase::Loaded(_) => true,
            Phase::Failed(_) => true,
            _ => false,
        }
    }

    /// The most steps start-up can still take from here.
    pub open spec fn remaining(self) -> nat {
        match self {
            Phase::Start => 4,
            Phase::Loading => 3,
            Phase::Generating => 2,
            Phase::Saving(_) => 1,
            Phase::Loaded(_) => 0,
            Phase::Failed(_) => 0,
        }
    }

    /// The event is the one start-up waits for in this phase.
    pub open spec fn awaits(self, event: Event) -> bool {
        match self {
            Phase::Start => event is Begin,
            Phase::Loading => event is Read,
            Phase::Generating => event is DirectoryEnsured,
            Phase::Saving(_) => event is Written,
            Phase::Loaded(_) => false,
            Phase::Failed(_) => false,
        }
    }

    /// How start-up ended.
    pub open spec fn outcome(self) -> Option<Result<CA, CAError>> {
        match self {
            Phase::Loaded(ca) => Some(Ok(ca)),
            Phase::Failed(e) => Some(Err(e)),
            _ => None,
        }
    }

    /// How start-up ended, if it has.
    pub fn into_outcome(self) -> (r: Option<Result<CA, CAError>>)
        ensures
            r == self.outcome(),
    {
        match self {
            Phase::Loaded(ca) => Some(Ok(ca)),
            Phase::Failed(e) => Some(Err(e)),
            _ => None,
        }
    }
}

/// The decision once loading has ended: a loaded certificate authority is
/// taken as it is; a file that was not found starts generation; every other
/// failure is final.
pub open spec fn loaded(dir: Seq<char>, outcome: Result<CA, CAError>) -> (Phase, ActionView) {
    match outcome {
        Ok(ca) => (Phase::Loaded(ca), ActionView::Finish),
        Err(e) => if e.is_not_found() {
            (Phase::Generating, ActionView::EnsureDirectory { dir })
        } else {
            (Phase::Failed(e), ActionView::Finish)
        },
    }
}

/// The decision once a new root has been built and serialized, or not.
pub open spec fn built(dir: Seq<char>, outcome: Result<(CA, PersistedCredential), CAError>) -> (
    Phase,
    ActionView,
) {
    match outcome {
        Ok((ca, files)) => (
            Phase::Saving(ca),
            ActionView::WriteFiles {
                cert_path: spec_cert_path(dir),
                key_path: spec_key_path(dir),
                cert: files.cert@,
                key: files.key@,
            },
        ),
        Err(e) => (Phase::Failed(e), ActionView::Finish),
    }
}

/// The decision once writing has ended: there is no second attempt.
pub open spec fn persisted(ca: CA, outcome: Result<(), CAError>) -> (Phase, ActionView) {
    match outcome {
        Ok(_) => (Phase::Loaded(ca), ActionView::Finish),
        Err(e) => (Phase::Failed(e), ActionView::Finish),
    }
}

/// What holds of every new root together with its serialized form: the
/// root is what [`CA::new_root`] says; the form is the PEM encoding of this
/// very certificate and key; if there is none, the failure is a crypto
/// failure; and there is none for a validity that OpenSSL cannot count.
pub open spec fn generate_outcome(
    days_valid: u32,
    outcome: Result<(CA, PersistedCredential), CAError>,
) -> bool {
    &&& outcome matches Ok((ca, files)) ==> {
        &&& ca.new_root(days_valid)
        &&& ca.saved_as(files)
        &&& files.is_pem()
    }
    &&& outcome matches Err(e) ==> e.is_crypto()
    &&& !countable(days_valid) ==> outcome is Err
}

/// Whether the directory is there to write into, as far as creating it
/// tells: it was created, or it was there already.
pub open spec fn directory_ready(outcome: Result<(), IoFailure>) -> bool {
    outcome matches Err(f) ==> f.kind == IoKind::AlreadyExists
}

/// The decision on a directory that could not be created: its failure is
/// final.
pub open spec fn refused(failure: IoFailure) -> (Phase, ActionView) {
    (Phase::Failed(CAError::IOError(failure)), ActionView::Finish)
}

/// What [`step`] may answer in `phase` to `event`.
///
/// Where OpenSSL has a say, in parsing what was read and in building a new
/// root, the answer is the decision on some outcome that the call admits.
/// Everywhere else the answer is determined.
pub open spec fn step_outcome(
    config: ConfigView,
    phase: Phase,
    event: Event,
    next: Phase,
    action: ActionView,
) -> bool {
    match phase {
        Phase::Start => match event {
            Event::Begin => {
                &&& next == Phase::Loading
                &&& action == ActionView::ReadFiles {
                    cert_path: spec_cert_path(config.dir),
                    key_path: spec_key_path(config.dir),
                }
            },
            _ => next == phase && action == ActionView::Wait,
        },
        Phase::Loading => match event {
            Event::Read { cert, key } => exists|outcome: Result<CA, CAError>|
                #[trigger] CA::load_outcome(cert, key, outcome) && (next, action) == loaded(
                    config.dir,
                    outcome,
                ),
            _ => next == phase && action == ActionView::Wait,
        },
        Phase::Generating => match event {
            Event::DirectoryEnsured(Err(failure)) if failure.kind != IoKind::AlreadyExists => (
                next,
                action,
            ) == refused(failure),
            Event::DirectoryEnsured(_) => exists|outcome: Result<(CA, PersistedCredential), CAError>|
                #[trigger] generate_outcome(config.days_valid, outcome) && (next, action) == built(
                    config.dir,
                    outcome,
                ),
            _ => next == phase && action == ActionView::Wait,
        },
        Phase::Saving(ca) => match event {
            Event::Written { cert, key } => (next, action) == persisted(
                ca,
                PersistedCredential::write_outcome(cert, key),
            ),
            _ => next == phase && action == ActionView::Wait,
        },
        Phase::Loaded(_) => next == phase && action == ActionView::Finish,
        Phase::Failed(_) => next == phase && action == ActionView::Finish,
    }
}

/// Generation starts on one outcome of loading only: a file that was not
/// found.
pub proof fn law_only_not_found_starts_generation(dir: Seq<char>, outcome: Result<CA, CAError>)
    ensures
        loaded(dir, outcome).0 is Generating <==> (outcome matches Err(e) && e.is_not_found()),
        loaded(dir, outcome).1 is EnsureDirectory <==> loaded(dir, outcome).0 is Generating,
        !(outcome matches Err(e) && e.is_not_found()) ==> loaded(dir, outcome).1
            == ActionView::Finish,
{
}

/// A certificate authority that loads is returned as it is, and nothing is
/// written.
pub proof fn law_loaded_is_returned_as_is(dir: Seq<char>, ca: CA)
    ensures
        loaded(dir, Ok(ca)) == (Phase::Loaded(ca), ActionView::Finish),
        loaded(dir, Ok(ca)).0.outcome() == Some(Ok::<CA, CAError>(ca)),
{
}

/// Where both files are there to read, start-up never generates: it ends at
/// once, with the loaded certificate authority or with a crypto failure,
/// however corrupt the files are. What is loaded is what OpenSSL reads out
/// of the two files, and the key belongs to the certificate.
pub proof fn law_present_files_never_regenerate(
    config: ConfigView,
    cert: Vec<u8>,
    key: Vec<u8>,
    next: Phase,
    action: ActionView,
)
    requires
        step_outcome(
            config,
            Phase::Loading,
            Event::Read { cert: Ok(cert), key: Ok(key) },
            next,
            action,
        ),
    ensures
        action == ActionView::Finish,
        next is Loaded || (next matches Phase::Failed(e) && e.is_crypto()),
        next matches Phase::Loaded(ca) ==> {
            &&& ca.spec_cert() == parsed_certificate(cert@)
            &&& ca.spec_key() == parsed_private_key(key@)
            &&& ca.wf()
        },
{
}

/// A second start returns what the first one wrote: where the files that
/// are read are the encodings of a certificate authority, what is loaded
/// is what OpenSSL reads out of its own encodings of that certificate and
/// that key, and nothing is written.
pub proof fn law_second_start_reads_the_first(
    config: ConfigView,
    first: CA,
    files: PersistedCredential,
    next: Phase,
    action: ActionView,
)
    requires
        first.saved_as(files),
        step_outcome(
            config,
            Phase::Loading,
            Event::Read { cert: Ok(files.cert), key: Ok(files.key) },
            next,
            action,
        ),
    ensures
        action == ActionView::Finish,
        next matches Phase::Loaded(second) ==> {
            &&& second.spec_cert() == parsed_certificate(certificate_pem(first.spec_cert()))
            &&& second.spec_key() == parsed_private_key(private_key_pem(first.spec_key()))
        },
        !(next is Loaded) ==> (next matches Phase::Failed(e) && e.is_crypto()),
{
}

/// A certificate file that does not exist starts generation, whatever
/// became of the key file; a certificate file that cannot be read for any
/// other reason ends start-up with that very failure.
pub proof fn law_unreadable_certificate(
    config: ConfigView,
    failure: IoFailure,
    key: Result<Vec<u8>, IoFailure>,
    next: Phase,
    action: ActionView,
)
    requires
        step_outcome(config, Phase::Loading, Event::Read { cert: Err(failure), key }, next, action),
    ensures
        failure.kind == IoKind::NotFound ==> next == Phase::Generating && action
            == (ActionView::EnsureDirectory { dir: config.dir }),
        failure.kind != IoKind::NotFound ==> next == Phase::Failed(CAError::IOError(failure))
            && action == ActionView::Finish,
{
}

/// A directory that cannot be created ends start-up with that very failure,
/// its classification untouched, and no root is built. Only a directory
/// that was there already is no failure.
pub proof fn law_directory_decides(
    config: ConfigView,
    ensured: Result<(), IoFailure>,
    next: Phase,
    action: ActionView,
)
    requires
        step_outcome(config, Phase::Generating, Event::DirectoryEnsured(ensured), next, action),
    ensures
        ensured matches Err(f) ==> (f.kind != IoKind::AlreadyExists ==> next == Phase::Failed(
            CAError::IOError(f),
        ) && action == ActionView::Finish),
        directory_ready(ensured) ==> next is Saving || (next matches Phase::Failed(e)
            && e.is_crypto()),
        next is Saving ==> directory_ready(ensured),
{
}

/// Files are written in one situation only: right after a new root was
/// generated in a directory that is there. Reloading never writes. What is
/// written goes to the two paths below the configured directory and is the
/// PEM encoding, text throughout, of the new root, which is the one that
/// start-up goes on with: its own issuer, self-signed over SHA-512, valid
/// for the configured days, with an RSA key of full size that is its own.
pub proof fn law_writes_follow_generation(
    config: ConfigView,
    phase: Phase,
    event: Event,
    next: Phase,
    action: ActionView,
)
    requires
        step_outcome(config, phase, event, next, action),
        action is WriteFiles,
    ensures
        phase is Generating,
        event matches Event::DirectoryEnsured(ensured) && directory_ready(ensured),
        countable(config.days_valid),
        action->WriteFiles_cert_path == spec_cert_path(config.dir),
        action->WriteFiles_key_path == spec_key_path(config.dir),
        next matches Phase::Saving(ca) && ca.wf() && action->WriteFiles_cert == certificate_pem(
            ca.spec_cert(),
        ) && action->WriteFiles_key == private_key_pem(ca.spec_key()),
        next matches Phase::Saving(ca) && ca.new_root(config.days_valid),
        opens_certificate(action->WriteFiles_cert),
        opens_private_key(action->WriteFiles_key),
        is_text(action->WriteFiles_cert),
        is_text(action->WriteFiles_key),
{
}

/// A failed write ends start-up with the failure that was reported, the
/// certificate's before the key's, its classification untouched; writes
/// that both succeed end it with the new root.
pub proof fn law_write_decides(
    config: ConfigView,
    ca: CA,
    cert: Result<(), IoFailure>,
    key: Result<(), IoFailure>,
    next: Phase,
    action: ActionView,
)
    requires
        step_outcome(config, Phase::Saving(ca), Event::Written { cert, key }, next, action),
    ensures
        action == ActionView::Finish,
        cert matches Err(f) ==> next == Phase::Failed(CAError::IOError(f)),
        cert is Ok ==> (key matches Err(f) ==> next == Phase::Failed(CAError::IOError(f))),
        cert is Ok && key is Ok ==> next == Phase::Loaded(ca),
{
}

/// Every awaited event brings start-up closer to its end, which is at most
/// four events away; every other event leaves the phase as it is. No phase
/// is ever entered a second time, so nothing is tried twice.
pub proof fn law_progress(
    config: ConfigView,
    phase: Phase,
    event: Event,
    next: Phase,
    action: ActionView,
)
    requires
        step_outcome(config, phase, event, next, action),
    ensures
        phase.awaits(event) ==> next.remaining() < phase.remaining(),
        !phase.awaits(event) ==> next == phase,
        action is Wait <==> !phase.awaits(event) && !phase.is_final(),
        action is Finish <==> next.is_final(),
        phase.remaining() <= 4,
        phase.remaining() == 0 <==> phase.is_final(),
{
}

/// Once start-up is over, no event changes how it ended.
pub proof fn law_finished_stays_finished(
    config: ConfigView,
    phase: Phase,
    event: Event,
    next: Phase,
    action: ActionView,
)
    requires
        phase.is_final(),
        step_outcome(config, phase, event, next, action),
    ensures
        next == phase,
        action == ActionView::Finish,
{
}

/// Decides what follows loading.
pub fn after_load(config: &Config, outcome: Result<CA, CAError>) -> (next: (Phase, Action))
    ensures
        (next.0, next.1@) == loaded(config.dir@, outcome),
{
    match outcome {
        Ok(ca) => (Phase::Loaded(ca), Action::Finish),
        Err(e) => if e.not_found() {
            (Phase::Generating, Action::EnsureDirectory { dir: config.dir.clone() })
        } else {
            (Phase::Failed(e), Action::Finish)
        },
    }
}

/// Decides what follows the creating of the directory: nothing stands in
/// the way of generation if the directory was created or was there already;
/// any other failure is returned, to end start-up.
pub fn after_directory(ensured: Result<(), IoFailure>) -> (failure: Option<IoFailure>)
    ensures
        directory_ready(ensured) ==> failure is None,
        !directory_ready(ensured) ==> ensured == Err::<(), IoFailure>(failure->0) && failure is Some,
{
    match ensured {
        Ok(_) => None,
        Err(f) => if f.kind == IoKind::AlreadyExists {
            None
        } else {
            Some(f)
        },
    }
}

/// Builds a new root valid for `days_valid` days and serializes it.
pub fn generate(days_valid: u32) -> (outcome: Result<(CA, PersistedCredential), CAError>)
    ensures
        generate_outcome(days_valid, outcome),
{
    let ca = CA::new(days_valid)?;
    let files = ca.save()?;
    Ok((ca, files))
}

/// Decides what follows the building of a new root.
pub fn after_generate(config: &Config, outcome: Result<(CA, PersistedCredential), CAError>) -> (next:
    (Phase, Action))
    ensures
        (next.0, next.1@) == built(config.dir@, outcome),
{
    match outcome {
        Ok((ca, files)) => (
            Phase::Saving(ca),
            Action::WriteFiles {
                cert_path: cert_path(config.dir.as_str()),
                key_path: key_path(config.dir.as_str()),
                files,
            },
        ),
        Err(e) => (Phase::Failed(e), Action::Finish),
    }
}

/// Decides what follows writing.
pub fn after_write(ca: CA, outcome: Result<(), CAError>) -> (next: (Phase, Action))
    ensures
        (next.0, next.1@) == persisted(ca, outcome),
{
    match outcome {
        Ok(_) => (Phase::Loaded(ca), Action::Finish),
        Err(e) => (Phase::Failed(e), Action::Finish),
    }
}

/// Takes start-up one step further: from the phase it is in and what the
/// caller reports to the next phase and what the caller is to do.
pub fn step(config: &Config, phase: Phase, event: Event) -> (next: (Phase, Action))
    ensures
        step_outcome(config@, phase, event, next.0, next.1@),
{
    match phase {
        Phase::Start => match event {
            Event::Begin => (
                Phase::Loading,
                Action::ReadFiles {
                    cert_path: cert_path(config.dir.as_str()),
                    key_path: key_path(config.dir.as_str()),
                },
            ),
            _ => (Phase::Start, Action::Wait),
        },
        Phase::Loading => match event {
            Event::Read { cert, key } => {
                let outcome = CA::load(cert, key);
                assert(CA::load_outcome(cert, key, outcome));
                after_load(config, outcome)
            },
            _ => (Phase::Loading, Action::Wait),
        },
        Phase::Generating => match event {
            Event::DirectoryEnsured(ensured) => match after_directory(ensured) {
                Some(failure) => (Phase::Failed(CAError::from(failure)), Action::Finish),
                None => {
                    let outcome = generate(config.days_valid);
                    assert(generate_outcome(config@.days_valid, outcome));
                    after_generate(config, outcome)
                },
            },
            _ => (Phase::Generating, Action::Wait),
        },
        Phase::Saving(ca) => match event {
            Event::Written { cert, key } => after_write(
                ca,
                PersistedCredential::written(cert, key),
            ),
            _ => (Phase::Saving(ca), Action::Wait),
        },
        Phase::Loaded(ca) => (Phase::Loaded(ca), Action::Finish),
        Phase::Failed(e) => (Phase::Failed(e), Action::Finish),
    }
}

} // verus!
