//! Making sure that the transcoding executable is in place.
//!
//! Provisioning is a walk through a handful of phases. Each phase asks the host for one thing
//! (a probe, a download, an unpacking), and what the host reports decides the next phase. The
//! manager makes the decisions; the host does the work.
//!
//! Nothing is remembered between two walks: each starts with a probe of the provisioned
//! executable, which is cheap once the executable is in place. Nor is anything locked. Two
//! walks that start at the same time on a machine without the executable may both download the
//! archive and both write the executable to the same path; the file that is written last stays.

use vstd::prelude::*;
use crate::archive::{
    extract_tar_xz,
    extract_zip,
    reflects,
    tar_xz_finding,
    zip_finding,
    Decompressed,
    Finding,
};
use crate::error::{ErrorKind, Failure};
use crate::paths::{join, joined};
use crate::platform::{ArchiveKind, PlatformProfile};

verus! {

/// Which executable is ready: the provisioned one, or one found on the search path.
#[derive(Clone, Copy, Debug, PartialEq, Eq, Structural)]
pub enum Source {
    Local,
    System,
}

/// How a liveness probe (the executable run with `-version`) ended.
#[derive(Clone, Copy, Debug, PartialEq, Eq, Structural)]
pub enum Probe {
    /// The process could not be started.
    NotStarted,
    /// The process ran to its end.
    Exited { success: bool },
}

/// What the two probes say has to happen before the executable can be used.
#[derive(Debug)]
pub enum ProvisioningState {
    /// The provisioned executable is usable; this is its path.
    Ready(String),
    /// Only the executable on the search path is usable.
    NeedsSystemFallback,
    /// No executable is usable.
    NeedsDownload,
}

/// A step of downloading and installing at which the host's work can fail.
#[derive(Clone, Copy, Debug, PartialEq, Eq, Structural)]
pub enum Step {
    CreateDirectory,
    Request,
    ReadBody,
    CreateArchive,
    WriteArchive,
    OpenArchive,
    CreateExecutable,
    WriteExecutable,
    ReadMetadata,
    SetPermissions,
}

/// Where provisioning stands.
#[derive(Debug)]
pub enum Phase {
    CheckLocal,
    CheckSystem,
    Download,
    Extract,
    RecheckLocal,
    Ready(Source),
    Failed(Failure),
}

/// What the host reports back after doing what a phase asked for.
#[derive(Debug)]
pub enum Event {
    /// A probe found the executable usable, or not.
    Probed(bool),
    /// The download, or the unpacking, went through.
    Done,
    /// The download, or the unpacking, failed; the text says how.
    Broke(String),
}

/// What a phase asks the host to do.
#[derive(Debug)]
pub enum Action {
    /// Run `program` with `-version`; where `must_exist` is set, only if a file of that path
    /// exists.
    Probe { program: String, must_exist: bool },
    /// Create `directory`, fetch `url` in full, and write what came to `archive`.
    Fetch { url: String, directory: String, archive: String },
    /// Unpack `archive` and install the executable at `destination`; then remove `archive`,
    /// however the unpacking went.
    Unpack { kind: ArchiveKind, archive: String, destination: String },
    /// Nothing is left to do.
    Stop,
}

/// A phase, as a plain value.
pub enum PhaseModel {
    CheckLocal,
    CheckSystem,
    Download,
    Extract,
    RecheckLocal,
    Ready(Source),
    Failed(ErrorKind, Seq<char>),
}

/// An event, as a plain value.
pub enum EventModel {
    Probed(bool),
    Done,
    Broke(Seq<char>),
}

/// An action, as a plain value.
pub enum ActionModel {
    Probe { program: Seq<char>, must_exist: bool },
    Fetch { url: Seq<char>, directory: Seq<char>, archive: Seq<char> },
    Unpack { kind: ArchiveKind, archive: Seq<char>, destination: Seq<char> },
    Stop,
}

impl View for Phase {
    type V = PhaseModel;

    open spec fn view(&self) -> PhaseModel {
        match *self {
            Phase::CheckLocal => PhaseModel::CheckLocal,
            Phase::CheckSystem => PhaseModel::CheckSystem,
            Phase::Download => PhaseModel::Download,
            Phase::Extract => PhaseModel::Extract,
            Phase::RecheckLocal => PhaseModel::RecheckLocal,
            Phase::Ready(source) => PhaseModel::Ready(source),
            Phase::Failed(failure) => PhaseModel::Failed(failure.kind, failure.message@),
        }
    }
}

impl View for Event {
    type V = EventModel;

    open spec fn view(&self) -> EventModel {
        match *self {
            Event::Probed(usable) => EventModel::Probed(usable),
            Event::Done => EventModel::Done,
            Event::Broke(text) => EventModel::Broke(text@),
        }
    }
}

impl View for Action {
    type V = ActionModel;

    open spec fn view(&self) -> ActionModel {
        match *self {
            Action::Probe { program, must_exist } => ActionModel::Probe {
                program: program@,
                must_exist,
            },
            Action::Fetch { url, directory, archive } => ActionModel::Fetch {
                url: url@,
                directory: directory@,
                archive: archive@,
            },
            Action::Unpack { kind, archive, destination } => ActionModel::Unpack {
                kind,
                archive: archive@,
                destination: destination@,
            },
            Action::Stop => ActionModel::Stop,
        }
    }
}

/// The data directory that was given, or the current directory where none was.
pub open spec fn root_or_here(root: Option<String>) -> Seq<char> {
    match root {
        Some(root) => root@,
        None => "."@,
    }
}

/// The name under which the search path knows the executable.
pub open spec fn system_program() -> Seq<char> {
    "ffmpeg"@
}

/// The text of the failure when all went through and the executable is still not usable.
pub open spec fn incomplete_text() -> Seq<char> {
    "Failed to download and install FFmpeg"@
}

/// A probe counts as live only when the process ran and exited with success.
pub open spec fn is_live(probe: Probe) -> bool {
    probe == (Probe::Exited { success: true })
}

/// The words that open the text of a failure at a step.
pub open spec fn step_words(step: Step) -> Seq<char> {
    match step {
        Step::CreateDirectory => "Failed to create FFmpeg directory: "@,
        Step::Request => "Failed to download FFmpeg: "@,
        Step::ReadBody => "Failed to read download: "@,
        Step::CreateArchive => "Failed to create temp file: "@,
        Step::WriteArchive => "Failed to write temp file: "@,
        Step::OpenArchive => "Failed to open archive: "@,
        Step::CreateExecutable => "Failed to create ffmpeg file: "@,
        Step::WriteExecutable => "Failed to extract ffmpeg: "@,
        Step::ReadMetadata => "Failed to get file metadata: "@,
        Step::SetPermissions => "Failed to set permissions: "@,
    }
}

/// The phase that follows `phase` when the host reports `event` during downloading or
/// unpacking. A failure of the download is a network failure, one of the unpacking an
/// extraction failure. Other phases, and events that do not answer the phase, change nothing.
pub open spec fn after_download_event(phase: PhaseModel, event: EventModel) -> PhaseModel {
    match (phase, event) {
        (PhaseModel::Download, EventModel::Done) => PhaseModel::Extract,
        (PhaseModel::Download, EventModel::Broke(text)) => PhaseModel::Failed(
            ErrorKind::Network,
            text,
        ),
        (PhaseModel::Extract, EventModel::Done) => PhaseModel::RecheckLocal,
        (PhaseModel::Extract, EventModel::Broke(text)) => PhaseModel::Failed(
            ErrorKind::Extraction,
            text,
        ),
        (phase, _) => phase,
    }
}

/// The phase that follows `phase` when the host reports `event`.
///
/// The provisioned executable is probed first, then the search path; only if neither is usable
/// is the archive downloaded and unpacked, after which the provisioned executable is probed once
/// more. `Ready` and `Failed` are final. An event that does not answer the phase changes nothing.
pub open spec fn next_phase(phase: PhaseModel, event: EventModel) -> PhaseModel {
    match (phase, event) {
        (PhaseModel::CheckLocal, EventModel::Probed(usable)) => if usable {
            PhaseModel::Ready(Source::Local)
        } else {
            PhaseModel::CheckSystem
        },
        (PhaseModel::CheckSystem, EventModel::Probed(usable)) => if usable {
            PhaseModel::Ready(Source::System)
        } else {
            PhaseModel::Download
        },
        (PhaseModel::RecheckLocal, EventModel::Probed(usable)) => if usable {
            PhaseModel::Ready(Source::Local)
        } else {
            PhaseModel::Failed(ErrorKind::Incomplete, incomplete_text())
        },
        (phase, event) => after_download_event(phase, event),
    }
}

/// The event is one that the host reports for what the phase asks: the result of a probe where
/// a probe is asked for, success or failure where a download or an unpacking is.
pub open spec fn answers(phase: PhaseModel, event: EventModel) -> bool {
    match phase {
        PhaseModel::CheckLocal | PhaseModel::CheckSystem | PhaseModel::RecheckLocal =>
            event is Probed,
        PhaseModel::Download | PhaseModel::Extract => event is Done || event is Broke,
        PhaseModel::Ready(_) | PhaseModel::Failed(_, _) => false,
    }
}

/// The greatest number of answers that can still be needed before provisioning is over.
pub open spec fn answers_left(phase: PhaseModel) -> nat {
    match phase {
        PhaseModel::CheckLocal => 5,
        PhaseModel::CheckSystem => 4,
        PhaseModel::Download => 3,
        PhaseModel::Extract => 2,
        PhaseModel::RecheckLocal => 1,
        PhaseModel::Ready(_) => 0,
        PhaseModel::Failed(_, _) => 0,
    }
}

/// The phase reached from `phase` after the host has reported `events`, one after the other.
pub open spec fn phase_after(phase: PhaseModel, events: Seq<EventModel>) -> PhaseModel
    decreases events.len(),
{
    if events.len() == 0 {
        phase
    } else {
        phase_after(next_phase(phase, events[0]), events.drop_first())
    }
}

/// What the host has staged for unpacking.
#[derive(Debug)]
pub enum Staged {
    /// The downloaded ZIP archive.
    Zip(Vec<u8>),
    /// What became of decompressing the downloaded TAR archive.
    TarXz(Decompressed),
}

/// What searching the staged archive for the executable comes to.
pub open spec fn finding_of(staged: Staged, executable: Seq<char>) -> Finding {
    match staged {
        Staged::Zip(bytes) => zip_finding(bytes@, executable),
        Staged::TarXz(decompressed) => tar_xz_finding(decompressed, executable),
    }
}

/// Keeps the paths under which the executable is provisioned, and decides what to do next.
#[derive(Debug)]
pub struct FFmpegManager {
    profile: PlatformProfile,
    ffmpeg_dir: String,
    ffmpeg_path: String,
}

/// `dirs::data_local_dir`: the user's directory for local application data, if the system names
/// one. It depends on the system and the environment, so nothing is claimed of it.
#[verifier::external_body]
fn local_data_directory() -> (found: Option<String>) {
    dirs::data_local_dir().map(|directory| directory.to_string_lossy().into_owned())
}

impl FFmpegManager {
    /// The executable lies in the install directory under the name the platform gives it.
    #[verifier::type_invariant]
    pub closed spec fn well_formed(&self) -> bool {
        self.ffmpeg_path@ == joined(self.ffmpeg_dir@, self.profile.executable_name@)
    }

    /// The platform the manager provisions for.
    pub closed spec fn platform(&self) -> PlatformProfile {
        self.profile
    }

    /// The directory that holds the provisioned executable.
    pub closed spec fn install_directory(&self) -> Seq<char> {
        self.ffmpeg_dir@
    }

    /// The path of the provisioned executable.
    pub closed spec fn provisioned_path(&self) -> Seq<char> {
        self.ffmpeg_path@
    }

    /// The path under which the downloaded archive is staged.
    pub open spec fn staged_archive(&self) -> Seq<char> {
        joined(self.install_directory(), "ffmpeg_temp.download"@)
    }

    /// The manager keeps its files under `root`: the executable, named as the platform names it,
    /// in `media-compressor/ffmpeg` below it.
    pub open spec fn is_rooted_at(&self, root: Seq<char>) -> bool {
        &&& self.install_directory() == joined(joined(root, "media-compressor"@), "ffmpeg"@)
        &&& self.provisioned_path() == joined(
            self.install_directory(),
            self.platform().executable_name@,
        )
    }

    /// The path of the executable that a finished provisioning hands out.
    pub open spec fn path_of(&self, source: Source) -> Seq<char> {
        match source {
            Source::Local => self.provisioned_path(),
            Source::System => system_program(),
        }
    }

    /// What a phase asks the host to do.
    pub open spec fn action_in(&self, phase: PhaseModel) -> ActionModel {
        match phase {
            PhaseModel::CheckLocal => ActionModel::Probe {
                program: self.provisioned_path(),
                must_exist: true,
            },
            PhaseModel::CheckSystem => ActionModel::Probe {
                program: system_program(),
                must_exist: false,
            },
            PhaseModel::Download => ActionModel::Fetch {
                url: self.platform().archive_url@,
                directory: self.install_directory(),
                archive: self.staged_archive(),
            },
            PhaseModel::Extract => ActionModel::Unpack {
                kind: self.platform().archive_kind,
                archive: self.staged_archive(),
                destination: self.provisioned_path(),
            },
            PhaseModel::RecheckLocal => ActionModel::Probe {
                program: self.provisioned_path(),
                must_exist: true,
            },
            PhaseModel::Ready(_) => ActionModel::Stop,
            PhaseModel::Failed(_, _) => ActionModel::Stop,
        }
    }

    /// What a phase has come to, once it is final: the path of the usable executable, or the
    /// failure's class and text.
    pub open spec fn outcome_in(&self, phase: PhaseModel) -> Option<Result<
        Seq<char>,
        (ErrorKind, Seq<char>),
    >> {
        match phase {
            PhaseModel::Ready(source) => Some(Ok(self.path_of(source))),
            PhaseModel::Failed(kind, text) => Some(Err((kind, text))),
            _ => None,
        }
    }

    /// A manager that keeps its files under the given data directory, or under the current
    /// directory where none is given.
    pub fn with_data_root(profile: PlatformProfile, root: Option<String>) -> (manager: FFmpegManager)
        ensures
            manager.platform() == profile,
            manager.is_rooted_at(root_or_here(root)),
    {
        let root = match root {
            Some(root) => root,
            None => String::from_str("."),
        };
        let app_data_dir = join(root.as_str(), "media-compressor");
        let ffmpeg_dir = join(app_data_dir.as_str(), "ffmpeg");
        let ffmpeg_path = join(ffmpeg_dir.as_str(), profile.executable_name.as_str());
        FFmpegManager { profile, ffmpeg_dir, ffmpeg_path }
    }

    /// A manager that keeps its files under the user's directory for local application data.
    pub fn new(profile: PlatformProfile) -> (manager: FFmpegManager)
        ensures
            manager.platform() == profile,
            exists|root: Seq<char>| manager.is_rooted_at(root),
    {
        let root = local_data_directory();
        let ghost chosen = root_or_here(root);
        let manager = FFmpegManager::with_data_root(profile, root);
        assert(manager.is_rooted_at(chosen));
        manager
    }

    /// The path of the provisioned executable: in the install directory, under the name the
    /// platform gives it.
    pub fn local_path(&self) -> (path: &str)
        ensures
            path@ == self.provisioned_path(),
            path@ == joined(self.install_directory(), self.platform().executable_name@),
    {
        proof {
            use_type_invariant(self);
        }
        self.ffmpeg_path.as_str()
    }

    /// The directory that holds the provisioned executable.
    pub fn directory(&self) -> (path: &str)
        ensures
            path@ == self.install_directory(),
    {
        self.ffmpeg_dir.as_str()
    }

    /// The platform the manager provisions for.
    pub fn profile(&self) -> (profile: &PlatformProfile)
        ensures
            *profile == self.platform(),
    {
        &self.profile
    }

    /// Whether a probe found a usable executable.
    pub fn test_ffmpeg(&self, probe: Probe) -> (live: bool)
        ensures
            live == is_live(probe),
    {
        match probe {
            Probe::NotStarted => false,
            Probe::Exited { success } => success,
        }
    }

    /// Whether the provisioned executable is usable: its file exists and its probe is live.
    pub fn is_ffmpeg_available(&self, exists: bool, probe: Probe) -> (available: bool)
        ensures
            available == (exists && is_live(probe)),
    {
        exists && self.test_ffmpeg(probe)
    }

    /// Whether the executable on the search path is usable: its probe is live.
    pub fn is_system_ffmpeg_available(&self, probe: Probe) -> (available: bool)
        ensures
            available == is_live(probe),
    {
        self.test_ffmpeg(probe)
    }

    /// What has to happen before the executable can be used, given what the probes found.
    pub fn provisioning_state(&self, local: bool, system: bool) -> (state: ProvisioningState)
        ensures
            local ==> {
                &&& state matches ProvisioningState::Ready(path)
                &&& path@ == self.provisioned_path()
            },
            !local && system ==> state is NeedsSystemFallback,
            !local && !system ==> state is NeedsDownload,
    {
        if local {
            ProvisioningState::Ready(self.ffmpeg_path.clone())
        } else if system {
            ProvisioningState::NeedsSystemFallback
        } else {
            ProvisioningState::NeedsDownload
        }
    }

    /// The path to run: the executable on the search path where only that one is usable, else
    /// the provisioned one.
    pub fn get_ffmpeg_path(&self, local: bool, system: bool) -> (path: String)
        ensures
            path@ == if !local && system {
                system_program()
            } else {
                self.provisioned_path()
            },
    {
        match self.provisioning_state(local, system) {
            ProvisioningState::Ready(path) => path,
            ProvisioningState::NeedsSystemFallback => String::from_str("ffmpeg"),
            ProvisioningState::NeedsDownload => self.ffmpeg_path.clone(),
        }
    }

    /// What the given phase asks the host to do.
    pub fn action(&self, phase: &Phase) -> (action: Action)
        ensures
            action@ == self.action_in(phase@),
    {
        match phase {
            Phase::CheckLocal | Phase::RecheckLocal => Action::Probe {
                program: self.ffmpeg_path.clone(),
                must_exist: true,
            },
            Phase::CheckSystem => Action::Probe {
                program: String::from_str("ffmpeg"),
                must_exist: false,
            },
            Phase::Download => Action::Fetch {
                url: self.profile.archive_url.clone(),
                directory: self.ffmpeg_dir.clone(),
                archive: join(self.ffmpeg_dir.as_str(), "ffmpeg_temp.download"),
            },
            Phase::Extract => Action::Unpack {
                kind: self.profile.archive_kind,
                archive: join(self.ffmpeg_dir.as_str(), "ffmpeg_temp.download"),
                destination: self.ffmpeg_path.clone(),
            },
            Phase::Ready(_) | Phase::Failed(_) => Action::Stop,
        }
    }

    /// One step of downloading and installing: the phase that follows when the host reports
    /// `event`.
    pub fn download_ffmpeg(&self, phase: Phase, event: Event) -> (next: Phase)
        ensures
            next@ == after_download_event(phase@, event@),
    {
        match phase {
            Phase::Download => match event {
                Event::Done => Phase::Extract,
                Event::Broke(text) => Phase::Failed(Failure::from_cause(ErrorKind::Network, text)),
                Event::Probed(_) => Phase::Download,
            },
            Phase::Extract => match event {
                Event::Done => Phase::RecheckLocal,
                Event::Broke(text) => Phase::Failed(
                    Failure::from_cause(ErrorKind::Extraction, text),
                ),
                Event::Probed(_) => Phase::Extract,
            },
            other => other,
        }
    }

    /// One step of making sure the executable is ready: the phase that follows when the host
    /// reports `event`.
    pub fn ensure_ffmpeg(&self, phase: Phase, event: Event) -> (next: Phase)
        ensures
            next@ == next_phase(phase@, event@),
    {
        match phase {
            Phase::CheckLocal => match event {
                Event::Probed(true) => Phase::Ready(Source::Local),
                Event::Probed(false) => Phase::CheckSystem,
                _ => Phase::CheckLocal,
            },
            Phase::CheckSystem => match event {
                Event::Probed(true) => Phase::Ready(Source::System),
                Event::Probed(false) => Phase::Download,
                _ => Phase::CheckSystem,
            },
            Phase::RecheckLocal => match event {
                Event::Probed(true) => Phase::Ready(Source::Local),
                Event::Probed(false) => Phase::Failed(
                    Failure::new(ErrorKind::Incomplete, "Failed to download and install FFmpeg"),
                ),
                _ => Phase::RecheckLocal,
            },
            other => self.download_ffmpeg(other, event),
        }
    }

    /// Searches the staged archive for the platform's executable and hands out its content, or
    /// nothing where no entry fits.
    pub fn unpack(&self, staged: Staged) -> (result: Result<Option<Vec<u8>>, Failure>)
        ensures
            reflects(result, finding_of(staged, self.platform().executable_name@)),
    {
        match staged {
            Staged::Zip(bytes) => extract_zip(bytes, self.profile.executable_name.as_str()),
            Staged::TarXz(decompressed) => extract_tar_xz(
                decompressed,
                self.profile.executable_name.as_str(),
            ),
        }
    }

    /// What a final phase has come to: the path to run, or the failure. Nothing while
    /// provisioning is still under way.
    pub fn outcome(&self, phase: &Phase) -> (outcome: Option<Result<String, Failure>>)
        ensures
            outcome is Some <==> self.outcome_in(phase@) is Some,
            outcome matches Some(Ok(path)) ==> self.outcome_in(phase@) == Some(
                Ok::<Seq<char>, (ErrorKind, Seq<char>)>(path@),
            ),
            outcome matches Some(Err(failure)) ==> self.outcome_in(phase@) == Some(
                Err::<Seq<char>, (ErrorKind, Seq<char>)>((failure.kind, failure.message@)),
            ),
    {
        match phase {
            Phase::Ready(Source::Local) => Some(Ok(self.ffmpeg_path.clone())),
            Phase::Ready(Source::System) => Some(Ok(String::from_str("ffmpeg"))),
            Phase::Failed(failure) => Some(
                Err(Failure::from_cause(failure.kind, failure.message.clone())),
            ),
            _ => None,
        }
    }
}

/// Whether any executable is usable, given what the two probes found.
pub fn check_ffmpeg_status(local: bool, system: bool) -> (usable: bool)
    ensures
        usable == (local || system),
{
    local || system
}

/// The text of a failure at a step: the step's words, then the cause as the host reports it.
pub fn step_failure(step: Step, cause: &str) -> (text: String)
    ensures
        text@ == step_words(step) + cause@,
{
    let words = match step {
        Step::CreateDirectory => "Failed to create FFmpeg directory: ",
        Step::Request => "Failed to download FFmpeg: ",
        Step::ReadBody => "Failed to read download: ",
        Step::CreateArchive => "Failed to create temp file: ",
        Step::WriteArchive => "Failed to write temp file: ",
        Step::OpenArchive => "Failed to open archive: ",
        Step::CreateExecutable => "Failed to create ffmpeg file: ",
        Step::WriteExecutable => "Failed to extract ffmpeg: ",
        Step::ReadMetadata => "Failed to get file metadata: ",
        Step::SetPermissions => "Failed to set permissions: ",
    };
    String::from_str(words).concat(cause)
}

/// The event that reports how the host's work on a phase ended.
pub fn event_of(outcome: Result<(), String>) -> (event: Event)
    ensures
        event@ == match outcome {
            Ok(_) => EventModel::Done,
            Err(text) => EventModel::Broke(text@),
        },
{
    match outcome {
        Ok(_) => Event::Done,
        Err(text) => Event::Broke(text),
    }
}

/// Every answer brings provisioning closer to its end, so a host that answers each phase is done
/// after five answers at most; and provisioning is over exactly when nothing is asked any more.
pub proof fn lemma_every_answer_is_progress(
    manager: FFmpegManager,
    phase: PhaseModel,
    event: EventModel,
)
    ensures
        answers(phase, event) ==> answers_left(next_phase(phase, event)) < answers_left(phase),
        !answers(phase, event) ==> next_phase(phase, event) == phase,
        answers_left(phase) == 0 <==> manager.action_in(phase) is Stop,
        answers_left(phase) == 0 <==> manager.outcome_in(phase) is Some,
{
}

/// The archive is downloaded exactly when neither the provisioned executable nor the one on the
/// search path is usable.
pub proof fn lemma_download_only_when_nothing_is_usable(local: bool, system: bool)
    ensures
        phase_after(
            PhaseModel::CheckLocal,
            seq![EventModel::Probed(local), EventModel::Probed(system)],
        ) is Download <==> !local && !system,
{
    let reported = seq![EventModel::Probed(local), EventModel::Probed(system)];
    let rest = reported.drop_first();
    assert(rest =~= seq![EventModel::Probed(system)]);
    assert(rest.drop_first() =~= Seq::<EventModel>::empty());
    let second = next_phase(PhaseModel::CheckLocal, reported[0]);
    assert(phase_after(second, rest) == phase_after(next_phase(second, rest[0]), rest.drop_first()));
}

/// The provisioned path depends on nothing but the data directory and the platform's name for
/// the executable: two managers that agree on these keep the executable at the same path.
pub proof fn lemma_provisioned_path_is_fixed(
    first: FFmpegManager,
    second: FFmpegManager,
    root: Seq<char>,
)
    requires
        first.is_rooted_at(root),
        second.is_rooted_at(root),
        first.platform().executable_name@ == second.platform().executable_name@,
    ensures
        first.install_directory() == second.install_directory(),
        first.provisioned_path() == second.provisioned_path(),
        first.staged_archive() == second.staged_archive(),
{
}

/// A final phase stays what it is, whatever the host reports afterwards.
pub proof fn lemma_final_phase_stays(phase: PhaseModel, events: Seq<EventModel>)
    requires
        phase is Ready || phase is Failed,
    ensures
        phase_after(phase, events) == phase,
    decreases events.len(),
{
    if events.len() > 0 {
        lemma_final_phase_stays(phase, events.drop_first());
    }
}

/// A provisioned executable that exists and is live makes both checks say so, and ends
/// provisioning at the first probe: with the provisioned path, the same at every call, with
/// nothing left for the host to do, and so without any download, whatever the host reports
/// afterwards.
pub proof fn lemma_ready_needs_no_download(
    manager: FFmpegManager,
    exists: bool,
    probe: Probe,
    system: bool,
    events: Seq<EventModel>,
)
    requires
        exists && is_live(probe),
    ensures
        (exists && is_live(probe)) || system,
        phase_after(
            PhaseModel::CheckLocal,
            seq![EventModel::Probed(exists && is_live(probe))] + events,
        ) == PhaseModel::Ready(Source::Local),
        manager.action_in(PhaseModel::Ready(Source::Local)) == ActionModel::Stop,
        manager.outcome_in(PhaseModel::Ready(Source::Local)) == Some(
            Ok::<Seq<char>, (ErrorKind, Seq<char>)>(manager.provisioned_path()),
        ),
{
    let reported = seq![EventModel::Probed(true)] + events;
    assert(reported.drop_first() =~= events);
    assert(reported[0] == EventModel::Probed(true));
    lemma_final_phase_stays(PhaseModel::Ready(Source::Local), events);
}

/// The host is asked to fetch the archive in the download phase and in no other.
pub proof fn lemma_fetch_only_when_downloading(manager: FFmpegManager, phase: PhaseModel)
    ensures
        manager.action_in(phase) is Fetch <==> phase is Download,
{
}

/// When the archive holds no entry that fits, unpacking is no failure; the probe that follows
/// finds nothing to run, and provisioning ends as incomplete.
pub proof fn lemma_unpacking_nothing_ends_incomplete(
    staged: Staged,
    executable: Seq<char>,
    result: Result<Option<Vec<u8>>, Failure>,
)
    requires
        finding_of(staged, executable) == Finding::Absent,
        reflects(result, finding_of(staged, executable)),
    ensures
        result matches Ok(None),
        phase_after(PhaseModel::Extract, seq![EventModel::Done, EventModel::Probed(false)])
            == PhaseModel::Failed(ErrorKind::Incomplete, incomplete_text()),
{
    let reported = seq![EventModel::Done, EventModel::Probed(false)];
    let rest = reported.drop_first();
    assert(rest =~= seq![EventModel::Probed(false)]);
    assert(rest.drop_first() =~= Seq::<EventModel>::empty());
    assert(next_phase(PhaseModel::Extract, reported[0]) == PhaseModel::RecheckLocal);
    assert(phase_after(PhaseModel::RecheckLocal, rest) == phase_after(
        next_phase(PhaseModel::RecheckLocal, rest[0]),
        rest.drop_first(),
    ));
}

} // verus!
