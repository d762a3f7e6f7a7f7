//! One run of the updater as a state machine. The caller performs what the
//! machine asks for (a request to the build server, the download, reading or
//! removing the artifact) and hands back what came of it; the machine
//! decides what follows.
//!
//! A run goes from `Idle` through fetching, downloading and verifying to
//! its end. It never goes back, and nothing is tried twice.

use vstd::prelude::*;

use crate::backend::BackendKind;
use crate::decision::{needs_update, update_needed};
use crate::digest::{digest_of, hash_matches};
use crate::marker::{installed, LocalVersion, LocalVersionRecord};
use crate::remote::{
    installed_as, latest_of, newest, newest_version, BuildList, Builds, RemoteBuild,
    RemoteBuildInfo, RemoteError,
};

verus! {

/// Why a run failed.
#[derive(Debug, Clone, Copy, PartialEq, Eq, Structural)]
pub enum UpdateError {
    /// The build server gave no build to install.
    Remote(RemoteError),
    /// The artifact could not be downloaded or stored.
    Download,
    /// The artifact does not have the digest that the server published.
    Integrity,
}

/// Which version the user asks for.
#[derive(Debug, Clone, PartialEq, Eq)]
pub enum Request {
    /// The version that the marker records; the newest where it records
    /// none.
    Recorded,
    /// The newest version, whatever the marker records.
    Latest,
    /// This version.
    Version(String),
}

/// Which version the user asks for, as a plain mathematical value.
pub enum Wish {
    Recorded,
    Latest,
    Version(Seq<char>),
}

impl View for Request {
    type V = Wish;

    open spec fn view(&self) -> Wish {
        match self {
            Request::Recorded => Wish::Recorded,
            Request::Latest => Wish::Latest,
            Request::Version(v) => Wish::Version(v@),
        }
    }
}

/// The request that the command line makes: `version` is the version named
/// there, `latest` whether the newest was asked for. The two exclude each
/// other.
pub open spec fn wish_of(version: Option<Seq<char>>, latest: bool) -> Option<Wish> {
    match version {
        Some(v) => if latest {
            None
        } else {
            Some(Wish::Version(v))
        },
        None => if latest {
            Some(Wish::Latest)
        } else {
            Some(Wish::Recorded)
        },
    }
}

impl Request {
    /// The request that the command line makes; `None` where it names a
    /// version and asks for the newest as well.
    pub fn from_flags(version: Option<String>, latest: bool) -> (r: Option<Request>)
        ensures
            match r {
                Some(req) => wish_of(version.deep_view(), latest) == Some(req@),
                None => wish_of(version.deep_view(), latest) is None,
            },
    {
        match version {
            Some(v) => if latest {
                None
            } else {
                Some(Request::Version(v))
            },
            None => if latest {
                Some(Request::Latest)
            } else {
                Some(Request::Recorded)
            },
        }
    }
}

/// Where a run stands.
#[derive(Debug, Clone, PartialEq, Eq)]
pub enum State {
    /// Nothing has happened yet.
    Idle,
    /// The list of versions was asked for.
    FetchingVersions,
    /// The builds of `version` were asked for.
    FetchingBuilds { version: String },
    /// The description of a build was asked for.
    FetchingArtifact { version: String, build: u16 },
    /// The artifact of `remote` is being downloaded.
    Downloading { remote: RemoteBuildInfo },
    /// The downloaded artifact of `remote` is being read for its digest.
    Verifying { remote: RemoteBuildInfo },
    /// The run is over: what the server offers is installed already.
    UpToDate,
    /// The run is over: the artifact was downloaded and has the right digest.
    Updated,
    /// The run is over: it failed.
    Failed(UpdateError),
}

/// Where a run stands, as a plain mathematical value.
pub enum Stage {
    Idle,
    FetchingVersions,
    FetchingBuilds { version: Seq<char> },
    FetchingArtifact { version: Seq<char>, build: u16 },
    Downloading { remote: RemoteBuild },
    Verifying { remote: RemoteBuild },
    UpToDate,
    Updated,
    Failed(UpdateError),
}

impl View for State {
    type V = Stage;

    open spec fn view(&self) -> Stage {
        match self {
            State::Idle => Stage::Idle,
            State::FetchingVersions => Stage::FetchingVersions,
            State::FetchingBuilds { version } => Stage::FetchingBuilds { version: version@ },
            State::FetchingArtifact { version, build } => Stage::FetchingArtifact {
                version: version@,
                build: *build,
            },
            State::Downloading { remote } => Stage::Downloading { remote: remote@ },
            State::Verifying { remote } => Stage::Verifying { remote: remote@ },
            State::UpToDate => Stage::UpToDate,
            State::Updated => Stage::Updated,
            State::Failed(e) => Stage::Failed(*e),
        }
    }
}

/// What came of the work that the machine asked for.
#[derive(Debug, Clone, PartialEq, Eq)]
pub enum Event {
    /// The run starts with this request.
    Start(Request),
    /// The server lists these versions, oldest first.
    Versions(Vec<String>),
    /// The server lists these builds.
    Builds(BuildList),
    /// The server describes the build: the name of its artifact (empty
    /// where it names none) and the digest of the artifact in hexadecimal.
    Artifact { filename: String, hash: String },
    /// The download ended with this HTTP status, and the artifact is stored.
    Downloaded { status: u16 },
    /// The stored artifact holds these bytes.
    Contents(Vec<u8>),
    /// The server could not be reached, or its answer could not be read.
    RemoteFailed,
    /// The download broke off, or the artifact could not be stored or read.
    DownloadFailed,
}

/// What came of the work that the machine asked for, as a plain
/// mathematical value.
pub enum Outcome {
    Start(Wish),
    Versions(Seq<Seq<char>>),
    Builds(Builds),
    Artifact { filename: Seq<char>, hash: Seq<char> },
    Downloaded { status: u16 },
    Contents(Seq<u8>),
    RemoteFailed,
    DownloadFailed,
}

impl View for Event {
    type V = Outcome;

    open spec fn view(&self) -> Outcome {
        match self {
            Event::Start(request) => Outcome::Start(request@),
            Event::Versions(versions) => Outcome::Versions(versions.deep_view()),
            Event::Builds(builds) => Outcome::Builds(builds@),
            Event::Artifact { filename, hash } => Outcome::Artifact {
                filename: filename@,
                hash: hash@,
            },
            Event::Downloaded { status } => Outcome::Downloaded { status: *status },
            Event::Contents(bytes) => Outcome::Contents(bytes@),
            Event::RemoteFailed => Outcome::RemoteFailed,
            Event::DownloadFailed => Outcome::DownloadFailed,
        }
    }
}

/// What the machine asks the caller to do next.
#[derive(Debug, Clone, PartialEq, Eq)]
pub enum Action {
    /// Ask the server at `url` for its versions; answer with `Versions`.
    FetchVersions { url: String },
    /// Ask the server at `url` for the builds of a version; answer with
    /// `Builds`.
    FetchBuilds { url: String },
    /// Ask the server at `url` for the description of a build; answer with
    /// `Artifact`.
    FetchArtifact { url: String },
    /// Download the artifact from `url` and store it; answer with
    /// `Downloaded`.
    Download { url: String },
    /// Read the stored artifact; answer with `Contents`.
    ReadArtifact,
    /// Remove the stored artifact: it is corrupt. The run has failed.
    DeleteArtifact,
    /// Nothing is left to do.
    Stop,
}

/// What the machine asks the caller to do next, as a plain mathematical
/// value.
pub enum Task {
    FetchVersions { url: Seq<char> },
    FetchBuilds { url: Seq<char> },
    FetchArtifact { url: Seq<char> },
    Download { url: Seq<char> },
    ReadArtifact,
    DeleteArtifact,
    Stop,
}

impl View for Action {
    type V = Task;

    open spec fn view(&self) -> Task {
        match self {
            Action::FetchVersions { url } => Task::FetchVersions { url: url@ },
            Action::FetchBuilds { url } => Task::FetchBuilds { url: url@ },
            Action::FetchArtifact { url } => Task::FetchArtifact { url: url@ },
            Action::Download { url } => Task::Download { url: url@ },
            Action::ReadArtifact => Task::ReadArtifact,
            Action::DeleteArtifact => Task::DeleteArtifact,
            Action::Stop => Task::Stop,
        }
    }
}

/// A run of the updater against one build server.
#[derive(Debug, Clone, PartialEq, Eq)]
pub struct Updater {
    /// The build server.
    pub backend: BackendKind,
    /// What the marker file records, if it records anything.
    pub local: Option<LocalVersionRecord>,
    /// Where the run stands.
    pub state: State,
}

/// A run of the updater, as a plain mathematical value.
pub struct Run {
    pub backend: BackendKind,
    pub local: Option<LocalVersion>,
    pub stage: Stage,
}

impl View for Updater {
    type V = Run;

    open spec fn view(&self) -> Run {
        Run { backend: self.backend, local: self.local.deep_view(), stage: self.state@ }
    }
}

/// The phases of a run.
#[derive(Debug, Clone, Copy, PartialEq, Eq, Structural)]
pub enum Phase {
    Idle,
    Fetching,
    Downloading,
    Verifying,
    Done,
    Failed,
}

impl Phase {
    /// How far a phase is into the run.
    pub open spec fn rank(self) -> nat {
        match self {
            Phase::Idle => 0,
            Phase::Fetching => 1,
            Phase::Downloading => 2,
            Phase::Verifying => 3,
            Phase::Done => 4,
            Phase::Failed => 4,
        }
    }
}

impl Stage {
    /// The phase that this stage belongs to.
    pub open spec fn phase(self) -> Phase {
        match self {
            Stage::Idle => Phase::Idle,
            Stage::FetchingVersions => Phase::Fetching,
            Stage::FetchingBuilds { .. } => Phase::Fetching,
            Stage::FetchingArtifact { .. } => Phase::Fetching,
            Stage::Downloading { .. } => Phase::Downloading,
            Stage::Verifying { .. } => Phase::Verifying,
            Stage::UpToDate => Phase::Done,
            Stage::Updated => Phase::Done,
            Stage::Failed(_) => Phase::Failed,
        }
    }

    /// Whether the run is over.
    pub open spec fn is_final(self) -> bool {
        self.phase() == Phase::Done || self.phase() == Phase::Failed
    }
}

/// The version to look for, where the request settles it: the version that
/// the request names, or the recorded one where the request asks for that
/// and one is recorded. `None` means the newest, which the server tells.
pub open spec fn wanted_version(local: Option<LocalVersion>, wish: Wish) -> Option<Seq<char>> {
    match wish {
        Wish::Version(v) => Some(v),
        Wish::Latest => None,
        Wish::Recorded => match local {
            Some(rec) => Some(rec.mc_version),
            None => None,
        },
    }
}

/// Whether a download that ended with `status` succeeded.
pub open spec fn is_success(status: u16) -> bool {
    200 <= status < 300
}

/// The step that follows once the version to look for is known.
pub open spec fn look_for(backend: BackendKind, version: Seq<char>) -> (Stage, Task) {
    (Stage::FetchingBuilds { version }, Task::FetchBuilds { url: backend.version_address(version) })
}

/// The step that ends a run in failure.
pub open spec fn fail(error: UpdateError) -> (Stage, Task) {
    (Stage::Failed(error), Task::Stop)
}

/// The step that the machine takes: the stage that follows `run.stage` on
/// `outcome`, and what the caller is asked to do.
///
/// An outcome that the stage does not wait for changes nothing and asks
/// for nothing.
pub open spec fn step_of(run: Run, outcome: Outcome) -> (Stage, Task) {
    match (run.stage, outcome) {
        (Stage::Idle, Outcome::Start(wish)) => match wanted_version(run.local, wish) {
            Some(version) => look_for(run.backend, version),
            None => (
                Stage::FetchingVersions,
                Task::FetchVersions { url: run.backend.project_address() },
            ),
        },
        (Stage::FetchingVersions, Outcome::Versions(versions)) => match newest_version(versions) {
            Ok(version) => look_for(run.backend, version),
            Err(e) => fail(UpdateError::Remote(e)),
        },
        (Stage::FetchingBuilds { version }, Outcome::Builds(builds)) => match latest_of(builds) {
            Ok(build) => (
                Stage::FetchingArtifact { version, build },
                Task::FetchArtifact { url: run.backend.build_address(version, build) },
            ),
            Err(e) => fail(UpdateError::Remote(e)),
        },
        (Stage::FetchingArtifact { version, build }, Outcome::Artifact { filename, hash }) => {
            let remote = RemoteBuild {
                mc_version: version,
                build,
                artifact_filename: filename,
                expected_hash: hash,
            };
            if update_needed(
                installed(run.local),
                installed_as(run.backend.server_type_name(), remote),
            ) {
                (
                    Stage::Downloading { remote },
                    Task::Download { url: run.backend.artifact_address(remote) },
                )
            } else {
                (Stage::UpToDate, Task::Stop)
            }
        },
        (Stage::FetchingVersions, Outcome::RemoteFailed) => fail(
            UpdateError::Remote(RemoteError::Unavailable),
        ),
        (Stage::FetchingBuilds { .. }, Outcome::RemoteFailed) => fail(
            UpdateError::Remote(RemoteError::Unavailable),
        ),
        (Stage::FetchingArtifact { .. }, Outcome::RemoteFailed) => fail(
            UpdateError::Remote(RemoteError::Unavailable),
        ),
        (Stage::Downloading { remote }, Outcome::Downloaded { status }) => if is_success(status) {
            (Stage::Verifying { remote }, Task::ReadArtifact)
        } else {
            fail(UpdateError::Download)
        },
        (Stage::Downloading { .. }, Outcome::DownloadFailed) => fail(UpdateError::Download),
        (Stage::Verifying { remote }, Outcome::Contents(bytes)) => if hash_matches(
            digest_of(run.backend.algorithm(), bytes),
            remote.expected_hash,
        ) {
            (Stage::Updated, Task::Stop)
        } else {
            (Stage::Failed(UpdateError::Integrity), Task::DeleteArtifact)
        },
        (Stage::Verifying { .. }, Outcome::DownloadFailed) => fail(UpdateError::Download),
        (stage, _) => (stage, Task::Stop),
    }
}

/// The step that follows once the version to look for is known.
fn look_for_version(backend: BackendKind, version: String) -> (r: (State, Action))
    ensures
        (r.0@, r.1@) == look_for(backend, version@),
{
    let url = backend.version_url(version.as_str());
    (State::FetchingBuilds { version }, Action::FetchBuilds { url })
}

/// The step that ends a run in failure.
fn fail_with(error: UpdateError) -> (r: (State, Action))
    ensures
        (r.0@, r.1@) == fail(error),
{
    (State::Failed(error), Action::Stop)
}

/// Whether a download that ended with `status` succeeded: the status is
/// one of the 2xx.
pub fn download_succeeded(status: u16) -> (r: bool)
    ensures
        r == is_success(status),
{
    200 <= status && status < 300
}

/// The step that follows the description of a build: the download where an
/// update is needed, the end of the run where it is not.
fn decide(
    backend: BackendKind,
    local: &Option<LocalVersionRecord>,
    remote: RemoteBuildInfo,
) -> (r: (State, Action))
    ensures
        (r.0@, r.1@) == if update_needed(
            installed(local.deep_view()),
            installed_as(backend.server_type_name(), remote@),
        ) {
            (
                Stage::Downloading { remote: remote@ },
                Task::Download { url: backend.artifact_address(remote@) },
            )
        } else {
            (Stage::UpToDate, Task::Stop)
        },
{
    let offered = remote.installed_record(backend.server_type());
    let needed = match local {
        Some(rec) => needs_update(rec, &offered),
        None => needs_update(&LocalVersionRecord::default(), &offered),
    };
    if needed {
        let url = backend.download_url(&remote);
        (State::Downloading { remote }, Action::Download { url })
    } else {
        (State::UpToDate, Action::Stop)
    }
}

impl Updater {
    /// A run that has not started.
    pub fn new(backend: BackendKind, local: Option<LocalVersionRecord>) -> (r: Updater)
        ensures
            r@ == (Run { backend, local: local.deep_view(), stage: Stage::Idle }),
    {
        Updater { backend, local, state: State::Idle }
    }

    /// Whether the run is over.
    pub fn is_finished(&self) -> (r: bool)
        ensures
            r == self@.stage.is_final(),
    {
        match &self.state {
            State::UpToDate => true,
            State::Updated => true,
            State::Failed(_) => true,
            _ => false,
        }
    }

    /// The phase that the run is in.
    pub fn phase(&self) -> (r: Phase)
        ensures
            r == self@.stage.phase(),
    {
        match &self.state {
            State::Idle => Phase::Idle,
            State::FetchingVersions => Phase::Fetching,
            State::FetchingBuilds { .. } => Phase::Fetching,
            State::FetchingArtifact { .. } => Phase::Fetching,
            State::Downloading { .. } => Phase::Downloading,
            State::Verifying { .. } => Phase::Verifying,
            State::UpToDate => Phase::Done,
            State::Updated => Phase::Done,
            State::Failed(_) => Phase::Failed,
        }
    }

    /// Takes one step: hands the machine what came of the work it asked
    /// for, and gets back the run in its next state and what to do next.
    ///
    /// The build server and the recorded version stay as they are.
    pub fn step(self, event: Event) -> (r: (Updater, Action))
        ensures
            r.0@.backend == self@.backend,
            r.0@.local == self@.local,
            (r.0@.stage, r.1@) == step_of(self@, event@),
    {
        let Updater { backend, local, state } = self;
        let (next, action) = match (state, event) {
            (State::Idle, Event::Start(request)) => {
                let wanted = match request {
                    Request::Version(v) => Some(v),
                    Request::Latest => None,
                    Request::Recorded => match &local {
                        Some(rec) => Some(rec.mc_version.clone()),
                        None => None,
                    },
                };
                match wanted {
                    Some(version) => look_for_version(backend, version),
                    None => (
                        State::FetchingVersions,
                        Action::FetchVersions { url: backend.project_url() },
                    ),
                }
            },
            (State::FetchingVersions, Event::Versions(versions)) => match newest(&versions) {
                Ok(version) => look_for_version(backend, version),
                Err(e) => fail_with(UpdateError::Remote(e)),
            },
            (State::FetchingBuilds { version }, Event::Builds(builds)) => match builds.latest() {
                Ok(build) => {
                    let url = backend.build_url(version.as_str(), build);
                    (State::FetchingArtifact { version, build }, Action::FetchArtifact { url })
                },
                Err(e) => fail_with(UpdateError::Remote(e)),
            },
            (State::FetchingArtifact { version, build }, Event::Artifact { filename, hash }) => {
                let remote = RemoteBuildInfo {
                    mc_version: version,
                    build,
                    artifact_filename: filename,
                    expected_hash: hash,
                };
                decide(backend, &local, remote)
            },
            (State::FetchingVersions, Event::RemoteFailed) => fail_with(
                UpdateError::Remote(RemoteError::Unavailable),
            ),
            (State::FetchingBuilds { .. }, Event::RemoteFailed) => fail_with(
                UpdateError::Remote(RemoteError::Unavailable),
            ),
            (State::FetchingArtifact { .. }, Event::RemoteFailed) => fail_with(
                UpdateError::Remote(RemoteError::Unavailable),
            ),
            (State::Downloading { remote }, Event::Downloaded { status }) => {
                if download_succeeded(status) {
                    (State::Verifying { remote }, Action::ReadArtifact)
                } else {
                    fail_with(UpdateError::Download)
                }
            },
            (State::Downloading { .. }, Event::DownloadFailed) => fail_with(UpdateError::Download),
            (State::Verifying { remote }, Event::Contents(bytes)) => {
                match backend.verify(bytes.as_slice(), remote.expected_hash.as_str()) {
                    Ok(()) => (State::Updated, Action::Stop),
                    Err(_) => (State::Failed(UpdateError::Integrity), Action::DeleteArtifact),
                }
            },
            (State::Verifying { .. }, Event::DownloadFailed) => fail_with(UpdateError::Download),
            (state, _) => (state, Action::Stop),
        };
        (Updater { backend, local, state: next }, action)
    }
}


/// A run never goes back to an earlier phase.
pub proof fn lemma_run_never_goes_back(run: Run, outcome: Outcome)
    ensures
        step_of(run, outcome).0.phase().rank() >= run.stage.phase().rank(),
{
}

/// A run that is over stays as it is, and asks for nothing more.
pub proof fn lemma_finished_run_stays(run: Run, outcome: Outcome)
    requires
        run.stage.is_final(),
    ensures
        step_of(run, outcome) == (run.stage, Task::Stop),
{
}

/// With nothing recorded, a run that asks for the recorded version starts
/// as one that asks for the newest.
pub proof fn lemma_nothing_recorded_asks_for_newest(backend: BackendKind)
    ensures
        step_of(Run { backend, local: None, stage: Stage::Idle }, Outcome::Start(Wish::Recorded))
            == step_of(
            Run { backend, local: None, stage: Stage::Idle },
            Outcome::Start(Wish::Latest),
        ),
        step_of(Run { backend, local: None, stage: Stage::Idle }, Outcome::Start(Wish::Recorded))
            == (Stage::FetchingVersions, Task::FetchVersions { url: backend.project_address() }),
{
}

/// Whatever is asked for and whatever is recorded, a run starts by asking
/// the build server: nothing is decided from the marker alone.
pub proof fn lemma_start_asks_the_server(run: Run, wish: Wish)
    requires
        run.stage == Stage::Idle,
    ensures
        step_of(run, Outcome::Start(wish)).0.phase() == Phase::Fetching,
        step_of(run, Outcome::Start(wish)).1 is FetchVersions || step_of(
            run,
            Outcome::Start(wish),
        ).1 is FetchBuilds,
{
}

/// With nothing recorded, the build that the server offers is downloaded.
pub proof fn lemma_nothing_recorded_is_an_update(
    run: Run,
    version: Seq<char>,
    build: u16,
    filename: Seq<char>,
    hash: Seq<char>,
)
    requires
        run.stage == (Stage::FetchingArtifact { version, build }),
        run.local is None,
    ensures
        step_of(run, Outcome::Artifact { filename, hash }).0 is Downloading,
        step_of(run, Outcome::Artifact { filename, hash }).1 is Download,
{
    reveal_strlit("Paper");
    reveal_strlit("Purpur");
    assert(run.backend.server_type_name().len() > 0);
}

/// A download is asked for only when the build was described and an update
/// is needed.
pub proof fn lemma_download_only_for_update(run: Run, outcome: Outcome)
    requires
        step_of(run, outcome).1 is Download,
    ensures
        run.stage is FetchingArtifact,
        outcome is Artifact,
        step_of(run, outcome).0 is Downloading,
        update_needed(
            installed(run.local),
            installed_as(run.backend.server_type_name(), step_of(run, outcome).0->Downloading_remote),
        ),
{
}

/// Where the marker records the very build that the server offers, nothing
/// is downloaded and the run ends.
pub proof fn lemma_installed_build_is_up_to_date(
    run: Run,
    version: Seq<char>,
    build: u16,
    filename: Seq<char>,
    hash: Seq<char>,
)
    requires
        run.stage == (Stage::FetchingArtifact { version, build }),
        run.local == Some(
            LocalVersion {
                server_type: run.backend.server_type_name(),
                mc_version: version,
                build,
            },
        ),
    ensures
        step_of(run, Outcome::Artifact { filename, hash }) == (Stage::UpToDate, Task::Stop),
{
}

/// Where the marker records another build than the server offers, the
/// artifact of the offered build is downloaded.
pub proof fn lemma_other_build_is_downloaded(
    run: Run,
    version: Seq<char>,
    build: u16,
    filename: Seq<char>,
    hash: Seq<char>,
)
    requires
        run.stage == (Stage::FetchingArtifact { version, build }),
        installed(run.local).build != build,
    ensures
        step_of(run, Outcome::Artifact { filename, hash }).0 == (Stage::Downloading {
            remote: RemoteBuild {
                mc_version: version,
                build,
                artifact_filename: filename,
                expected_hash: hash,
            },
        }),
        step_of(run, Outcome::Artifact { filename, hash }).1 is Download,
{
}

/// An artifact with the published digest stays, and the run ends well.
pub proof fn lemma_verified_artifact_stays(run: Run, remote: RemoteBuild, bytes: Seq<u8>)
    requires
        run.stage == (Stage::Verifying { remote }),
        hash_matches(digest_of(run.backend.algorithm(), bytes), remote.expected_hash),
    ensures
        step_of(run, Outcome::Contents(bytes)) == (Stage::Updated, Task::Stop),
{
}

/// The artifact is removed exactly where it was read and does not have the
/// published digest; the run has then failed for that reason.
pub proof fn lemma_artifact_removed_iff_corrupt(run: Run, outcome: Outcome)
    ensures
        step_of(run, outcome).1 is DeleteArtifact <==> run.stage is Verifying && outcome is Contents
            && !hash_matches(
            digest_of(run.backend.algorithm(), outcome->Contents_0),
            run.stage->Verifying_remote.expected_hash,
        ),
        step_of(run, outcome).1 is DeleteArtifact ==> step_of(run, outcome).0 == Stage::Failed(
            UpdateError::Integrity,
        ),
{
}


} // verus!
