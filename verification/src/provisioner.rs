//! The provisioner: a state machine that decides how to obtain a runnable
//! language-server binary. Every interaction with the outside world
//! (filesystem checks, the PATH lookup, release metadata, the download)
//! is handed to the caller as an explicit [`Request`]; the caller performs
//! it and feeds the observed [`Event`] back through [`Provisioner::step`].
//! All decisions between those interactions live here and are verified.

use crate::errors::ProvisionError;
use crate::platform::{asset_name_for_platform, platform_supported, spec_archive_kind,
    spec_asset_filename, Architecture, ArchiveKind, Os};
use crate::text::{starts_with, str_equal, str_starts_with};
use vstd::pervasive::unreached;
use vstd::prelude::*;

verus! {

/// One downloadable file attached to a release.
pub struct ReleaseAsset {
    pub name: String,
    pub download_url: String,
}

/// A published release: its version string and its assets, in order.
pub struct Release {
    pub version: String,
    pub assets: Vec<ReleaseAsset>,
}

/// Progress signals emitted towards the host, for observability only.
#[derive(Clone, Copy, PartialEq, Eq, Structural, Debug)]
pub enum InstallationStatus {
    CheckingForUpdate,
    Downloading,
}

/// Everything a managed install needs once the asset is resolved.
pub struct InstallPlan {
    pub download_url: String,
    pub version_dir: String,
    pub binary_path: String,
    pub archive_kind: ArchiveKind,
}

/// An action the caller must perform on the provisioner's behalf.
pub enum Request {
    /// Ask the filesystem whether `path` is a regular file.
    StatFile { path: String },
    /// Ask the worktree / system PATH for a pre-installed binary.
    LookupOnPath { binary_name: String },
    /// Emit an installation-status signal to the host.
    ReportStatus { status: InstallationStatus },
    /// Fetch the latest release descriptor of `repository`.
    FetchLatestRelease { repository: String, require_assets: bool, pre_release: bool },
    /// Create the directory `path`, parents included.
    CreateDirectory { path: String },
    /// Download `url`, unpacking it according to `archive_kind`, to `path`.
    DownloadFile { url: String, path: String, archive_kind: ArchiveKind },
    /// Mark `path` executable.
    MakeExecutable { path: String },
    /// List the entry names of the current directory.
    ListEntries,
    /// Best-effort removal of each named entry; failures are swallowed.
    RemoveEntries { names: Vec<String> },
}

/// What the caller observed while performing the matching [`Request`].
pub enum Event {
    /// Whether the path queried by `StatFile` is a regular file.
    FileStatus { is_file: bool },
    /// What the `LookupOnPath` search found, if anything.
    LookupResult { path: Option<String> },
    /// The status signal of `ReportStatus` was emitted.
    StatusReported,
    /// The outcome of `FetchLatestRelease`.
    ReleaseFetched { result: Result<Release, String> },
    /// The outcome of `CreateDirectory`, `DownloadFile` or `MakeExecutable`.
    Completion { result: Result<(), String> },
    /// The entry names returned for `ListEntries`.
    DirectoryListing { entries: Vec<String> },
    /// The removals of `RemoveEntries` were attempted.
    EntriesRemoved,
}

/// Where a resolution run stands between two interactions.
pub enum Phase {
    Idle,
    CheckingCache { path: String },
    CheckingWorktree,
    ReportingCheck,
    FetchingRelease,
    CheckingInstalled { plan: InstallPlan },
    ReportingDownload { plan: InstallPlan },
    CreatingDirectory { plan: InstallPlan },
    Downloading { plan: InstallPlan },
    MarkingExecutable { plan: InstallPlan },
    ListingEntries { version_dir: String, binary_path: String },
    RemovingStale { binary_path: String },
}

/// What a step hands back: either the next action to perform, or the
/// finished result of the whole run.
pub enum Outcome {
    Act { request: Request },
    Done { result: Result<String, ProvisionError> },
}

/// The provisioner itself: the target platform, the in-memory cached
/// binary path, and the phase of the run in flight.
pub struct Provisioner {
    pub os: Os,
    pub arch: Architecture,
    pub cached_binary_path: Option<String>,
    pub phase: Phase,
}

/// The well-known name the binary is looked up by on the system PATH.
pub open spec fn spec_server_binary_name() -> Seq<char> {
    "aptos-language-server"@
}

/// The repository whose releases carry the binary.
pub open spec fn spec_repository() -> Seq<char> {
    "aptos-labs/move-vscode-extension"@
}

/// The prefix every version directory's name carries.
pub open spec fn spec_version_dir_prefix() -> Seq<char> {
    "aptos-language-server-"@
}

/// The version-scoped install directory for a release version.
pub open spec fn spec_version_dir(version: Seq<char>) -> Seq<char> {
    spec_version_dir_prefix() + version
}

/// The on-disk executable name: plain on Mac and Linux, `.exe` on Windows.
pub open spec fn spec_binary_filename(os: Os) -> Seq<char> {
    match os {
        Os::Windows => "aptos-language-server.exe"@,
        _ => "aptos-language-server"@,
    }
}

/// The target binary path inside the version directory.
pub open spec fn spec_binary_path(version: Seq<char>, os: Os) -> Seq<char> {
    spec_version_dir(version) + "/"@ + spec_binary_filename(os)
}

/// Some asset of the list carries exactly this name.
pub open spec fn has_asset(assets: Seq<ReleaseAsset>, name: Seq<char>) -> bool {
    exists|i: int| 0 <= i < assets.len() && (#[trigger] assets[i]).name@ == name
}

/// `i` is the first position whose asset carries exactly this name.
pub open spec fn is_first_asset_match(assets: Seq<ReleaseAsset>, name: Seq<char>, i: int) -> bool {
    &&& 0 <= i < assets.len()
    &&& assets[i].name@ == name
    &&& forall|j: int| 0 <= j < i ==> (#[trigger] assets[j]).name@ != name
}

/// A directory entry that belongs to a superseded version: it carries the
/// version-directory prefix but is not the directory being kept.
pub open spec fn is_stale_entry(entry: Seq<char>, keep: Seq<char>) -> bool {
    starts_with(entry, spec_version_dir_prefix()) && entry != keep
}

/// The entries that cleanup removes, in listing order.
pub open spec fn stale_of(entries: Seq<Seq<char>>, keep: Seq<char>) -> Seq<Seq<char>>
    decreases entries.len(),
{
    if entries.len() == 0 {
        Seq::empty()
    } else {
        let rest = stale_of(entries.drop_last(), keep);
        if is_stale_entry(entries.last(), keep) {
            rest.push(entries.last())
        } else {
            rest
        }
    }
}

/// The asset names of a release, as character sequences, in order.
pub open spec fn asset_name_views(assets: Seq<ReleaseAsset>) -> Seq<Seq<char>> {
    assets.map_values(|a: ReleaseAsset| a.name@)
}

/// Find the first asset with exactly this name.
pub fn find_asset(assets: &Vec<ReleaseAsset>, name: &str) -> (r: Option<usize>)
    ensures
        match r {
            Some(i) => is_first_asset_match(assets@, name@, i as int),
            None => !has_asset(assets@, name@),
        },
{
    let mut i: usize = 0;
    while i < assets.len()
        invariant
            i <= assets@.len(),
            forall|j: int| 0 <= j < i ==> (#[trigger] assets@[j]).name@ != name@,
        decreases assets@.len() - i,
    {
        if str_equal(assets[i].name.as_str(), name) {
            return Some(i);
        }
        i += 1;
    }
    None
}

/// The names of all assets of a release, for diagnostics.
pub fn asset_names(assets: &Vec<ReleaseAsset>) -> (r: Vec<String>)
    ensures
        r.deep_view() == asset_name_views(assets@),
{
    let mut r: Vec<String> = Vec::new();
    let mut i: usize = 0;
    while i < assets.len()
        invariant
            i <= assets@.len(),
            r.deep_view() =~= asset_name_views(assets@.take(i as int)),
        decreases assets@.len() - i,
    {
        let ghost before = r.deep_view();
        r.push(assets[i].name.clone());
        proof {
            assert(r.deep_view() =~= before.push(assets@[i as int].name@));
            assert(asset_name_views(assets@.take(i as int + 1)) =~= before.push(
                assets@[i as int].name@,
            ));
        }
        i += 1;
    }
    proof {
        assert(assets@.take(assets@.len() as int) =~= assets@);
    }
    r
}

/// The name of the version-scoped install directory for a version string.
pub fn version_directory_name(version: &str) -> (r: String)
    ensures
        r@ == spec_version_dir(version@),
{
    let mut r: String = "aptos-language-server-".to_owned();
    r.append(version);
    r
}

/// The target binary path inside a version directory.
pub fn binary_path_in(version_dir: &str, os: Os) -> (r: String)
    ensures
        r@ == version_dir@ + "/"@ + spec_binary_filename(os),
{
    let mut r: String = version_dir.to_owned();
    r.append("/");
    match os {
        Os::Windows => r.append("aptos-language-server.exe"),
        _ => r.append("aptos-language-server"),
    }
    r
}

/// Select the stale entries of a directory listing: those with the
/// version-directory prefix, other than the directory being kept.
pub fn stale_entries(entries: &Vec<String>, keep: &str) -> (r: Vec<String>)
    ensures
        r.deep_view() == stale_of(entries.deep_view(), keep@),
{
    let ghost dv: Seq<Seq<char>> = entries.deep_view();
    let mut r: Vec<String> = Vec::new();
    let mut i: usize = 0;
    while i < entries.len()
        invariant
            i <= entries@.len(),
            dv == entries.deep_view(),
            dv.len() == entries@.len(),
            forall|j: int| 0 <= j < dv.len() ==> dv[j] == entries@[j]@,
            r.deep_view() =~= stale_of(dv.take(i as int), keep@),
        decreases entries@.len() - i,
    {
        let e = &entries[i];
        if str_starts_with(e.as_str(), "aptos-language-server-") && !str_equal(e.as_str(), keep) {
            r.push(e.clone());
        }
        proof {
            let extended = dv.take(i as int + 1);
            assert(extended.drop_last() =~= dv.take(i as int));
            assert(extended.last() == dv[i as int]);
            assert(r.deep_view() =~= stale_of(extended, keep@));
        }
        i += 1;
    }
    proof {
        assert(dv.take(entries@.len() as int) =~= dv);
    }
    r
}

impl InstallPlan {
    /// A value-equal copy of the plan.
    pub fn duplicate(&self) -> (r: InstallPlan)
        ensures
            r == *self,
    {
        InstallPlan {
            download_url: self.download_url.clone(),
            version_dir: self.version_dir.clone(),
            binary_path: self.binary_path.clone(),
            archive_kind: self.archive_kind,
        }
    }
}

/// Which events answer which phase's pending request.
pub open spec fn event_fits(phase: Phase, event: Event) -> bool {
    match (phase, event) {
        (Phase::CheckingCache { .. }, Event::FileStatus { .. }) => true,
        (Phase::CheckingWorktree, Event::LookupResult { .. }) => true,
        (Phase::ReportingCheck, Event::StatusReported) => true,
        (Phase::FetchingRelease, Event::ReleaseFetched { .. }) => true,
        (Phase::CheckingInstalled { .. }, Event::FileStatus { .. }) => true,
        (Phase::ReportingDownload { .. }, Event::StatusReported) => true,
        (Phase::CreatingDirectory { .. }, Event::Completion { .. }) => true,
        (Phase::Downloading { .. }, Event::Completion { .. }) => true,
        (Phase::MarkingExecutable { .. }, Event::Completion { .. }) => true,
        (Phase::ListingEntries { .. }, Event::DirectoryListing { .. }) => true,
        (Phase::RemovingStale { .. }, Event::EntriesRemoved) => true,
        _ => false,
    }
}

/// How a run begins: the cached path is re-checked on disk if one exists,
/// else the system PATH is consulted.
pub open spec fn start_next(pre: Provisioner, post: Provisioner, r: Request) -> bool {
    &&& post.os == pre.os
    &&& post.arch == pre.arch
    &&& post.cached_binary_path == pre.cached_binary_path
    &&& match pre.cached_binary_path {
        Some(p) => {
            &&& post.phase == Phase::CheckingCache { path: p }
            &&& r == Request::StatFile { path: p }
        },
        None => {
            &&& post.phase is CheckingWorktree
            &&& r matches Request::LookupOnPath { binary_name } && binary_name@
                == spec_server_binary_name()
        },
    }
}

/// The transition taken when release metadata arrives: resolve the asset
/// for the platform, find it in the release, and set up the install plan,
/// or fail with the matching error.
pub open spec fn release_step(pre: Provisioner, release: Release, post: Provisioner, o: Outcome) -> bool {
    if !platform_supported(pre.os, pre.arch) {
        &&& post.cached_binary_path == pre.cached_binary_path
        &&& post.phase is Idle
        &&& o == Outcome::Done {
            result: Err::<String, ProvisionError>(
                ProvisionError::UnsupportedPlatform { os: pre.os, arch: pre.arch },
            ),
        }
    } else if has_asset(release.assets@, spec_asset_filename(pre.os, pre.arch)) {
        &&& post.cached_binary_path == pre.cached_binary_path
        &&& post.phase matches Phase::CheckingInstalled { plan } && plan_resolves(
            plan,
            release,
            pre.os,
            pre.arch,
        ) && (o matches Outcome::Act { request: Request::StatFile { path } } && path
            == plan.binary_path)
    } else {
        &&& post.cached_binary_path == pre.cached_binary_path
        &&& post.phase is Idle
        &&& o matches Outcome::Done { result: Err(e) } && e matches
            ProvisionError::AssetNotFound { os, arch, expected, available } && os == pre.os
            && arch == pre.arch && expected@ == spec_asset_filename(pre.os, pre.arch)
            && available.deep_view() == asset_name_views(release.assets@)
    }
}

/// The install plan a release resolves to: the first matching asset's
/// download URL, the version-scoped directory, the binary path inside it,
/// and the platform's archive kind.
pub open spec fn plan_resolves(plan: InstallPlan, release: Release, os: Os, arch: Architecture) -> bool {
    &&& exists|i: int|
        #[trigger] is_first_asset_match(release.assets@, spec_asset_filename(os, arch), i)
            && plan.download_url == release.assets@[i].download_url
    &&& plan.version_dir@ == spec_version_dir(release.version@)
    &&& plan.binary_path@ == spec_binary_path(release.version@, os)
    &&& plan.archive_kind == spec_archive_kind(os, arch)
}

/// The full transition relation of a step: given the phase and the event
/// that answers it, what the provisioner becomes and what it hands back.
pub open spec fn next(pre: Provisioner, event: Event, post: Provisioner, o: Outcome) -> bool {
    &&& post.os == pre.os
    &&& post.arch == pre.arch
    &&& match (pre.phase, event) {
        (Phase::CheckingCache { path }, Event::FileStatus { is_file }) => {
            if is_file {
                &&& post.cached_binary_path == pre.cached_binary_path
                &&& post.phase is Idle
                &&& o == Outcome::Done { result: Ok::<String, ProvisionError>(path) }
            } else {
                &&& post.cached_binary_path == pre.cached_binary_path
                &&& post.phase is CheckingWorktree
                &&& o matches Outcome::Act {
                    request: Request::LookupOnPath { binary_name },
                } && binary_name@ == spec_server_binary_name()
            }
        },
        (Phase::CheckingWorktree, Event::LookupResult { path }) => {
            match path {
                Some(p) => {
                    &&& post.cached_binary_path == Some(p)
                    &&& post.phase is Idle
                    &&& o == Outcome::Done { result: Ok::<String, ProvisionError>(p) }
                },
                None => {
                    &&& post.cached_binary_path == pre.cached_binary_path
                    &&& post.phase is ReportingCheck
                    &&& o == Outcome::Act {
                        request: Request::ReportStatus {
                            status: InstallationStatus::CheckingForUpdate,
                        },
                    }
                },
            }
        },
        (Phase::ReportingCheck, Event::StatusReported) => {
            &&& post.cached_binary_path == pre.cached_binary_path
            &&& post.phase is FetchingRelease
            &&& o matches Outcome::Act {
                request: Request::FetchLatestRelease { repository, require_assets, pre_release },
            } && repository@ == spec_repository() && require_assets == true && pre_release == false
        },
        (Phase::FetchingRelease, Event::ReleaseFetched { result }) => {
            match result {
                Ok(release) => release_step(pre, release, post, o),
                Err(m) => {
                    &&& post.cached_binary_path == pre.cached_binary_path
                    &&& post.phase is Idle
                    &&& o == Outcome::Done {
                        result: Err::<String, ProvisionError>(
                            ProvisionError::ReleaseFetch { message: m },
                        ),
                    }
                },
            }
        },
        (Phase::CheckingInstalled { plan }, Event::FileStatus { is_file }) => {
            if is_file {
                &&& post.cached_binary_path == pre.cached_binary_path
                &&& post.phase == Phase::ListingEntries {
                    version_dir: plan.version_dir,
                    binary_path: plan.binary_path,
                }
                &&& o == Outcome::Act { request: Request::ListEntries }
            } else {
                &&& post.cached_binary_path == pre.cached_binary_path
                &&& post.phase == Phase::ReportingDownload { plan }
                &&& o == Outcome::Act {
                    request: Request::ReportStatus { status: InstallationStatus::Downloading },
                }
            }
        },
        (Phase::ReportingDownload { plan }, Event::StatusReported) => {
            &&& post.cached_binary_path == pre.cached_binary_path
            &&& post.phase == Phase::CreatingDirectory { plan }
            &&& o == Outcome::Act {
                request: Request::CreateDirectory { path: plan.version_dir },
            }
        },
        (Phase::CreatingDirectory { plan }, Event::Completion { result }) => {
            match result {
                Ok(u) => {
                    &&& post.cached_binary_path == pre.cached_binary_path
                    &&& post.phase == Phase::Downloading { plan }
                    &&& o == Outcome::Act {
                        request: Request::DownloadFile {
                            url: plan.download_url,
                            path: plan.binary_path,
                            archive_kind: plan.archive_kind,
                        },
                    }
                },
                Err(m) => {
                    &&& post.cached_binary_path == pre.cached_binary_path
                    &&& post.phase is Idle
                    &&& o == Outcome::Done {
                        result: Err::<String, ProvisionError>(
                            ProvisionError::DirectoryCreation { message: m },
                        ),
                    }
                },
            }
        },
        (Phase::Downloading { plan }, Event::Completion { result }) => {
            match result {
                Ok(u) => {
                    &&& post.cached_binary_path == pre.cached_binary_path
                    &&& post.phase == Phase::MarkingExecutable { plan }
                    &&& o == Outcome::Act {
                        request: Request::MakeExecutable { path: plan.binary_path },
                    }
                },
                Err(m) => {
                    &&& post.cached_binary_path == pre.cached_binary_path
                    &&& post.phase is Idle
                    &&& o == Outcome::Done {
                        result: Err::<String, ProvisionError>(
                            ProvisionError::Download { message: m },
                        ),
                    }
                },
            }
        },
        (Phase::MarkingExecutable { plan }, Event::Completion { result }) => {
            match result {
                Ok(u) => {
                    &&& post.cached_binary_path == pre.cached_binary_path
                    &&& post.phase == Phase::ListingEntries {
                        version_dir: plan.version_dir,
                        binary_path: plan.binary_path,
                    }
                    &&& o == Outcome::Act { request: Request::ListEntries }
                },
                Err(m) => {
                    &&& post.cached_binary_path == pre.cached_binary_path
                    &&& post.phase is Idle
                    &&& o == Outcome::Done {
                        result: Err::<String, ProvisionError>(
                            ProvisionError::PermissionMarking { message: m },
                        ),
                    }
                },
            }
        },
        (Phase::ListingEntries { version_dir, binary_path }, Event::DirectoryListing {
            entries,
        }) => {
            &&& post.cached_binary_path == pre.cached_binary_path
            &&& post.phase == Phase::RemovingStale { binary_path }
            &&& o matches Outcome::Act { request: Request::RemoveEntries { names } }
                && names.deep_view() == stale_of(entries.deep_view(), version_dir@)
        },
        (Phase::RemovingStale { binary_path }, Event::EntriesRemoved) => {
            &&& post.cached_binary_path == Some(binary_path)
            &&& post.phase is Idle
            &&& o == Outcome::Done { result: Ok::<String, ProvisionError>(binary_path) }
        },
        _ => false,
    }
}

impl Provisioner {
    /// A fresh provisioner for the given platform: nothing cached, no run
    /// in flight.
    pub fn new(os: Os, arch: Architecture) -> (p: Provisioner)
        ensures
            p.os == os,
            p.arch == arch,
            p.cached_binary_path is None,
            p.phase is Idle,
    {
        Provisioner { os, arch, cached_binary_path: None, phase: Phase::Idle }
    }

    /// Whether `event` answers the request the provisioner is waiting on.
    pub fn accepts(&self, event: &Event) -> (r: bool)
        ensures
            r == event_fits(self.phase, *event),
    {
        match (&self.phase, event) {
            (Phase::CheckingCache { .. }, Event::FileStatus { .. }) => true,
            (Phase::CheckingWorktree, Event::LookupResult { .. }) => true,
            (Phase::ReportingCheck, Event::StatusReported) => true,
            (Phase::FetchingRelease, Event::ReleaseFetched { .. }) => true,
            (Phase::CheckingInstalled { .. }, Event::FileStatus { .. }) => true,
            (Phase::ReportingDownload { .. }, Event::StatusReported) => true,
            (Phase::CreatingDirectory { .. }, Event::Completion { .. }) => true,
            (Phase::Downloading { .. }, Event::Completion { .. }) => true,
            (Phase::MarkingExecutable { .. }, Event::Completion { .. }) => true,
            (Phase::ListingEntries { .. }, Event::DirectoryListing { .. }) => true,
            (Phase::RemovingStale { .. }, Event::EntriesRemoved) => true,
            _ => false,
        }
    }

    /// Begin a resolution run: re-check the cached path if one exists,
    /// else look the binary up on the system PATH.
    pub fn start(&mut self) -> (r: Request)
        requires
            old(self).phase is Idle,
        ensures
            start_next(*old(self), *final(self), r),
    {
        match &self.cached_binary_path {
            Some(p) => {
                let checked = p.clone();
                let remembered = p.clone();
                self.phase = Phase::CheckingCache { path: remembered };
                Request::StatFile { path: checked }
            },
            None => {
                self.phase = Phase::CheckingWorktree;
                Request::LookupOnPath { binary_name: "aptos-language-server".to_owned() }
            },
        }
    }

    /// Advance the run by one decision, given the event observed for the
    /// pending request.
    pub fn step(&mut self, event: Event) -> (o: Outcome)
        requires
            event_fits(old(self).phase, event),
        ensures
            next(*old(self), event, *final(self), o),
    {
        match (&self.phase, event) {
            (Phase::CheckingCache { path }, Event::FileStatus { is_file }) => {
                if is_file {
                    let p = path.clone();
                    self.phase = Phase::Idle;
                    Outcome::Done { result: Ok(p) }
                } else {
                    self.phase = Phase::CheckingWorktree;
                    Outcome::Act {
                        request: Request::LookupOnPath {
                            binary_name: "aptos-language-server".to_owned(),
                        },
                    }
                }
            },
            (Phase::CheckingWorktree, Event::LookupResult { path }) => {
                match path {
                    Some(p) => {
                        let found = p.clone();
                        self.cached_binary_path = Some(p);
                        self.phase = Phase::Idle;
                        Outcome::Done { result: Ok(found) }
                    },
                    None => {
                        self.phase = Phase::ReportingCheck;
                        Outcome::Act {
                            request: Request::ReportStatus {
                                status: InstallationStatus::CheckingForUpdate,
                            },
                        }
                    },
                }
            },
            (Phase::ReportingCheck, Event::StatusReported) => {
                self.phase = Phase::FetchingRelease;
                Outcome::Act {
                    request: Request::FetchLatestRelease {
                        repository: "aptos-labs/move-vscode-extension".to_owned(),
                        require_assets: true,
                        pre_release: false,
                    },
                }
            },
            (Phase::FetchingRelease, Event::ReleaseFetched { result }) => {
                match result {
                    Ok(release) => self.on_release(release),
                    Err(m) => {
                        self.phase = Phase::Idle;
                        Outcome::Done {
                            result: Err(ProvisionError::ReleaseFetch { message: m }),
                        }
                    },
                }
            },
            (Phase::CheckingInstalled { plan }, Event::FileStatus { is_file }) => {
                if is_file {
                    let version_dir = plan.version_dir.clone();
                    let binary_path = plan.binary_path.clone();
                    self.phase = Phase::ListingEntries { version_dir, binary_path };
                    Outcome::Act { request: Request::ListEntries }
                } else {
                    let kept = plan.duplicate();
                    self.phase = Phase::ReportingDownload { plan: kept };
                    Outcome::Act {
                        request: Request::ReportStatus {
                            status: InstallationStatus::Downloading,
                        },
                    }
                }
            },
            (Phase::ReportingDownload { plan }, Event::StatusReported) => {
                let dir = plan.version_dir.clone();
                let kept = plan.duplicate();
                self.phase = Phase::CreatingDirectory { plan: kept };
                Outcome::Act { request: Request::CreateDirectory { path: dir } }
            },
            (Phase::CreatingDirectory { plan }, Event::Completion { result }) => {
                match result {
                    Ok(u) => {
                        let url = plan.download_url.clone();
                        let path = plan.binary_path.clone();
                        let archive_kind = plan.archive_kind;
                        let kept = plan.duplicate();
                        self.phase = Phase::Downloading { plan: kept };
                        Outcome::Act {
                            request: Request::DownloadFile { url, path, archive_kind },
                        }
                    },
                    Err(m) => {
                        self.phase = Phase::Idle;
                        Outcome::Done {
                            result: Err(ProvisionError::DirectoryCreation { message: m }),
                        }
                    },
                }
            },
            (Phase::Downloading { plan }, Event::Completion { result }) => {
                match result {
                    Ok(u) => {
                        let path = plan.binary_path.clone();
                        let kept = plan.duplicate();
                        self.phase = Phase::MarkingExecutable { plan: kept };
                        Outcome::Act { request: Request::MakeExecutable { path } }
                    },
                    Err(m) => {
                        self.phase = Phase::Idle;
                        Outcome::Done {
                            result: Err(ProvisionError::Download { message: m }),
                        }
                    },
                }
            },
            (Phase::MarkingExecutable { plan }, Event::Completion { result }) => {
                match result {
                    Ok(u) => {
                        let version_dir = plan.version_dir.clone();
                        let binary_path = plan.binary_path.clone();
                        self.phase = Phase::ListingEntries { version_dir, binary_path };
                        Outcome::Act { request: Request::ListEntries }
                    },
                    Err(m) => {
                        self.phase = Phase::Idle;
                        Outcome::Done {
                            result: Err(ProvisionError::PermissionMarking { message: m }),
                        }
                    },
                }
            },
            (Phase::ListingEntries { version_dir, binary_path }, Event::DirectoryListing {
                entries,
            }) => {
                let names = stale_entries(&entries, version_dir.as_str());
                let kept = binary_path.clone();
                self.phase = Phase::RemovingStale { binary_path: kept };
                Outcome::Act { request: Request::RemoveEntries { names } }
            },
            (Phase::RemovingStale { binary_path }, Event::EntriesRemoved) => {
                let cached = binary_path.clone();
                let returned = cached.clone();
                self.cached_binary_path = Some(cached);
                self.phase = Phase::Idle;
                Outcome::Done { result: Ok(returned) }
            },
            _ => unreached(),
        }
    }

    /// Resolve the fetched release into an install plan, or fail.
    fn on_release(&mut self, release: Release) -> (o: Outcome)
        ensures
            final(self).os == old(self).os,
            final(self).arch == old(self).arch,
            release_step(*old(self), release, *final(self), o),
    {
        match asset_name_for_platform(self.os, self.arch) {
            Err(e) => {
                self.phase = Phase::Idle;
                Outcome::Done { result: Err(e) }
            },
            Ok(resolved) => {
                match find_asset(&release.assets, resolved.filename.as_str()) {
                    None => {
                        let available = asset_names(&release.assets);
                        self.phase = Phase::Idle;
                        Outcome::Done {
                            result: Err(
                                ProvisionError::AssetNotFound {
                                    os: self.os,
                                    arch: self.arch,
                                    expected: resolved.filename,
                                    available,
                                },
                            ),
                        }
                    },
                    Some(i) => {
                        let download_url = release.assets[i].download_url.clone();
                        let version_dir = version_directory_name(release.version.as_str());
                        let binary_path = binary_path_in(version_dir.as_str(), self.os);
                        let checked = binary_path.clone();
                        proof {
                            assert(has_asset(release.assets@, resolved.filename@)) by {
                                assert(is_first_asset_match(
                                    release.assets@,
                                    resolved.filename@,
                                    i as int,
                                ));
                            }
                        }
                        self.phase = Phase::CheckingInstalled {
                            plan: InstallPlan {
                                download_url,
                                version_dir,
                                binary_path,
                                archive_kind: resolved.archive_kind,
                            },
                        };
                        Outcome::Act { request: Request::StatFile { path: checked } }
                    },
                }
            },
        }
    }
}

/// Re-running the resolution while a valid cached binary exists is
/// idempotent: both runs ask for nothing but the one file check and
/// return the identical path, and the cache is left as it was. In
/// particular no download is ever requested.
pub proof fn lemma_cached_run_idempotent(
    p0: Provisioner,
    p1: Provisioner,
    r1: Request,
    p2: Provisioner,
    o1: Outcome,
    p3: Provisioner,
    r2: Request,
    p4: Provisioner,
    o2: Outcome,
    path: String,
)
    requires
        p0.cached_binary_path == Some(path),
        start_next(p0, p1, r1),
        next(p1, (Event::FileStatus { is_file: true }), p2, o1),
        start_next(p2, p3, r2),
        next(p3, (Event::FileStatus { is_file: true }), p4, o2),
    ensures
        (r1 == Request::StatFile { path }),
        (o1 == Outcome::Done { result: Ok::<String, ProvisionError>(path) }),
        r2 == r1,
        o2 == o1,
        (p2.phase is Idle),
        (p4.phase is Idle),
        p4.cached_binary_path == p0.cached_binary_path,
{
}

/// A successful system PATH lookup ends the run at once with the found
/// path: the managed-download side is never entered, whatever is on disk.
pub proof fn lemma_lookup_precedence(
    pre: Provisioner,
    found: String,
    post: Provisioner,
    o: Outcome,
)
    requires
        (pre.phase is CheckingWorktree),
        next(pre, (Event::LookupResult { path: Some(found) }), post, o),
    ensures
        (o == Outcome::Done { result: Ok::<String, ProvisionError>(found) }),
        post.cached_binary_path == Some(found),
        (post.phase is Idle),
{
}

/// The managed-download side begins at the checking-for-update signal,
/// and the only way into it is a PATH lookup that came back empty: any
/// other answer ends the run on the spot.
pub proof fn lemma_managed_install_needs_failed_lookup(
    pre: Provisioner,
    event: Event,
    post: Provisioner,
    o: Outcome,
)
    requires
        (pre.phase is CheckingWorktree),
        next(pre, event, post, o),
    ensures
        ((post.phase is ReportingCheck) <==> (event == Event::LookupResult {
            path: None::<String>,
        })),
        !(post.phase is ReportingCheck) ==> (o matches Outcome::Done { result: Ok(p) }
            && post.cached_binary_path == Some(p)),
{
}

/// Cleanup selects exactly the listing entries that carry the version-
/// directory prefix and are not the directory being kept — so the kept
/// directory itself is never removed.
pub proof fn lemma_stale_selection(entries: Seq<Seq<char>>, keep: Seq<char>)
    ensures
        forall|e: Seq<char>|
            #[trigger] stale_of(entries, keep).contains(e) <==> (entries.contains(e)
                && is_stale_entry(e, keep)),
        !stale_of(entries, keep).contains(keep),
    decreases entries.len(),
{
    let s = stale_of(entries, keep);
    if entries.len() == 0 {
        assert forall|e: Seq<char>| !(#[trigger] s.contains(e)) by {
            assert(s.len() == 0);
        }
    } else {
        let front = entries.drop_last();
        let last = entries.last();
        let rest = stale_of(front, keep);
        lemma_stale_selection(front, keep);
        assert forall|e: Seq<char>| #[trigger] s.contains(e) implies entries.contains(e)
            && is_stale_entry(e, keep) by {
            let j = choose|j: int| 0 <= j < s.len() && s[j] == e;
            if is_stale_entry(last, keep) && j == s.len() - 1 {
                assert(e == last);
                assert(entries[entries.len() - 1] == e);
            } else {
                assert(rest[j] == e);
                assert(rest.contains(e));
                let i = choose|i: int| 0 <= i < front.len() && front[i] == e;
                assert(entries[i] == e);
            }
        }
        assert forall|e: Seq<char>| entries.contains(e) && is_stale_entry(e, keep) implies #[trigger] s
            .contains(e) by {
            let i = choose|i: int| 0 <= i < entries.len() && entries[i] == e;
            if i == entries.len() - 1 {
                assert(s[s.len() - 1] == e);
            } else {
                assert(front[i] == e);
                assert(front.contains(e));
                assert(rest.contains(e));
                let j = choose|j: int| 0 <= j < rest.len() && rest[j] == e;
                assert(s[j] == e);
            }
        }
    }
    assert(!is_stale_entry(keep, keep));
}

} // verus!
