//! Driving the provisioner state machine through whole runs: fresh
//! installs, cache reuse, PATH precedence, cleanup, and every failure.

use move_on_aptos::command::language_server_command;
use move_on_aptos::errors::ProvisionError;
use move_on_aptos::platform::{Architecture, ArchiveKind, Os};
use move_on_aptos::provisioner::{
    Event, InstallationStatus, Outcome, Phase, Provisioner, Release, ReleaseAsset, Request,
};

fn act(o: Outcome) -> Request {
    match o {
        Outcome::Act { request } => request,
        Outcome::Done { result } => panic!("expected another action, run finished: {:?}", result),
    }
}

fn done(o: Outcome) -> Result<String, ProvisionError> {
    match o {
        Outcome::Done { result } => result,
        Outcome::Act { .. } => panic!("expected the run to finish"),
    }
}

fn release_with(version: &str, names: &[&str]) -> Release {
    Release {
        version: version.to_string(),
        assets: names
            .iter()
            .map(|n| ReleaseAsset {
                name: n.to_string(),
                download_url: format!("https://example.test/{}", n),
            })
            .collect(),
    }
}

/// Walk a fresh provisioner up to the point where release metadata is
/// expected, checking each request on the way.
fn walk_to_release_fetch(prov: &mut Provisioner) {
    match prov.start() {
        Request::LookupOnPath { binary_name } => {
            assert_eq!(binary_name, "aptos-language-server");
        },
        _ => panic!("a run without a cache must begin with the PATH lookup"),
    }
    match act(prov.step(Event::LookupResult { path: None })) {
        Request::ReportStatus { status } => {
            assert!(matches!(status, InstallationStatus::CheckingForUpdate));
        },
        _ => panic!("a failed lookup must lead to the checking-for-update signal"),
    }
    match act(prov.step(Event::StatusReported)) {
        Request::FetchLatestRelease { repository, require_assets, pre_release } => {
            assert_eq!(repository, "aptos-labs/move-vscode-extension");
            assert!(require_assets);
            assert!(!pre_release);
        },
        _ => panic!("the status signal must be followed by the release fetch"),
    }
}

#[test]
fn test_fresh_install_run() {
    let mut prov = Provisioner::new(Os::Linux, Architecture::X8664);
    walk_to_release_fetch(&mut prov);

    let release = release_with(
        "1.2.0",
        &["aptos-language-server-x86_64-unknown-linux-gnu.gz", "sources.tar"],
    );
    match act(prov.step(Event::ReleaseFetched { result: Ok(release) })) {
        Request::StatFile { path } => {
            assert_eq!(path, "aptos-language-server-1.2.0/aptos-language-server");
        },
        _ => panic!("the resolved binary path must be checked on disk"),
    }
    match act(prov.step(Event::FileStatus { is_file: false })) {
        Request::ReportStatus { status } => {
            assert!(matches!(status, InstallationStatus::Downloading));
        },
        _ => panic!("a missing binary must lead to the downloading signal"),
    }
    match act(prov.step(Event::StatusReported)) {
        Request::CreateDirectory { path } => {
            assert_eq!(path, "aptos-language-server-1.2.0");
        },
        _ => panic!("the version directory must be created first"),
    }
    match act(prov.step(Event::Completion { result: Ok(()) })) {
        Request::DownloadFile { url, path, archive_kind } => {
            assert_eq!(
                url,
                "https://example.test/aptos-language-server-x86_64-unknown-linux-gnu.gz",
            );
            assert_eq!(path, "aptos-language-server-1.2.0/aptos-language-server");
            assert!(matches!(archive_kind, ArchiveKind::Gzip));
        },
        _ => panic!("the created directory must be followed by the download"),
    }
    match act(prov.step(Event::Completion { result: Ok(()) })) {
        Request::MakeExecutable { path } => {
            assert_eq!(path, "aptos-language-server-1.2.0/aptos-language-server");
        },
        _ => panic!("the download must be followed by the permission marking"),
    }
    match act(prov.step(Event::Completion { result: Ok(()) })) {
        Request::ListEntries => {},
        _ => panic!("the install must be followed by the cleanup scan"),
    }
    let entries = vec![
        "aptos-language-server-1.1.0".to_string(),
        "aptos-language-server-1.2.0".to_string(),
        "notes.txt".to_string(),
    ];
    match act(prov.step(Event::DirectoryListing { entries })) {
        Request::RemoveEntries { names } => {
            assert_eq!(names, vec!["aptos-language-server-1.1.0".to_string()]);
        },
        _ => panic!("the scan must be followed by the removals"),
    }
    let path = done(prov.step(Event::EntriesRemoved)).unwrap();
    assert_eq!(path, "aptos-language-server-1.2.0/aptos-language-server");
    assert_eq!(
        prov.cached_binary_path.as_deref(),
        Some("aptos-language-server-1.2.0/aptos-language-server"),
    );
    assert!(matches!(prov.phase, Phase::Idle));
}

#[test]
fn test_windows_install_uses_exe_and_zip() {
    let mut prov = Provisioner::new(Os::Windows, Architecture::X8664);
    walk_to_release_fetch(&mut prov);
    let release = release_with("2.0.0", &["aptos-language-server-x86_64-pc-windows-msvc.zip"]);
    match act(prov.step(Event::ReleaseFetched { result: Ok(release) })) {
        Request::StatFile { path } => {
            assert_eq!(path, "aptos-language-server-2.0.0/aptos-language-server.exe");
        },
        _ => panic!("the resolved binary path must be checked on disk"),
    }
    match act(prov.step(Event::FileStatus { is_file: false })) {
        Request::ReportStatus { .. } => {},
        _ => panic!("a missing binary must lead to the downloading signal"),
    }
    match act(prov.step(Event::StatusReported)) {
        Request::CreateDirectory { .. } => {},
        _ => panic!("the version directory must be created first"),
    }
    match act(prov.step(Event::Completion { result: Ok(()) })) {
        Request::DownloadFile { archive_kind, .. } => {
            assert!(matches!(archive_kind, ArchiveKind::Zip));
        },
        _ => panic!("the created directory must be followed by the download"),
    }
}

#[test]
fn test_cached_path_reused_twice() {
    let mut prov = Provisioner {
        os: Os::Mac,
        arch: Architecture::Aarch64,
        cached_binary_path: Some("aptos-language-server-1.0.0/aptos-language-server".to_string()),
        phase: Phase::Idle,
    };
    for _ in 0..2 {
        match prov.start() {
            Request::StatFile { path } => {
                assert_eq!(path, "aptos-language-server-1.0.0/aptos-language-server");
            },
            _ => panic!("a cached run must begin with the file check"),
        }
        let path = done(prov.step(Event::FileStatus { is_file: true })).unwrap();
        assert_eq!(path, "aptos-language-server-1.0.0/aptos-language-server");
        assert!(matches!(prov.phase, Phase::Idle));
    }
    assert_eq!(
        prov.cached_binary_path.as_deref(),
        Some("aptos-language-server-1.0.0/aptos-language-server"),
    );
}

#[test]
fn test_path_lookup_precedence() {
    let mut prov = Provisioner::new(Os::Linux, Architecture::Aarch64);
    match prov.start() {
        Request::LookupOnPath { .. } => {},
        _ => panic!("a run without a cache must begin with the PATH lookup"),
    }
    let path = done(prov.step(Event::LookupResult {
        path: Some("/usr/local/bin/aptos-language-server".to_string()),
    }))
    .unwrap();
    assert_eq!(path, "/usr/local/bin/aptos-language-server");
    assert_eq!(prov.cached_binary_path.as_deref(), Some("/usr/local/bin/aptos-language-server"));
    match prov.start() {
        Request::StatFile { path } => {
            assert_eq!(path, "/usr/local/bin/aptos-language-server");
        },
        _ => panic!("the found path must be cached for the next run"),
    }
}

#[test]
fn test_stale_cache_falls_through_to_lookup() {
    let mut prov = Provisioner {
        os: Os::Linux,
        arch: Architecture::X8664,
        cached_binary_path: Some("gone/aptos-language-server".to_string()),
        phase: Phase::Idle,
    };
    match prov.start() {
        Request::StatFile { .. } => {},
        _ => panic!("a cached run must begin with the file check"),
    }
    match act(prov.step(Event::FileStatus { is_file: false })) {
        Request::LookupOnPath { binary_name } => {
            assert_eq!(binary_name, "aptos-language-server");
        },
        _ => panic!("a vanished cached file must fall through to the PATH lookup"),
    }
}

#[test]
fn test_already_installed_skips_download_but_cleans() {
    let mut prov = Provisioner::new(Os::Linux, Architecture::X8664);
    walk_to_release_fetch(&mut prov);
    let release = release_with("1.2.0", &["aptos-language-server-x86_64-unknown-linux-gnu.gz"]);
    match act(prov.step(Event::ReleaseFetched { result: Ok(release) })) {
        Request::StatFile { .. } => {},
        _ => panic!("the resolved binary path must be checked on disk"),
    }
    match act(prov.step(Event::FileStatus { is_file: true })) {
        Request::ListEntries => {},
        _ => panic!("an installed binary must skip straight to the cleanup scan"),
    }
    let entries = vec!["aptos-language-server-0.9.0".to_string()];
    match act(prov.step(Event::DirectoryListing { entries })) {
        Request::RemoveEntries { names } => {
            assert_eq!(names, vec!["aptos-language-server-0.9.0".to_string()]);
        },
        _ => panic!("the scan must be followed by the removals"),
    }
    let path = done(prov.step(Event::EntriesRemoved)).unwrap();
    assert_eq!(path, "aptos-language-server-1.2.0/aptos-language-server");
}

#[test]
fn test_unsupported_platform_fails_after_fetch() {
    let mut prov = Provisioner::new(Os::Mac, Architecture::X86);
    walk_to_release_fetch(&mut prov);
    let release = release_with("1.2.0", &["anything.gz"]);
    let err = done(prov.step(Event::ReleaseFetched { result: Ok(release) })).unwrap_err();
    match err {
        ProvisionError::UnsupportedPlatform { os, arch } => {
            assert!(matches!(os, Os::Mac));
            assert!(matches!(arch, Architecture::X86));
        },
        other => panic!("expected the unsupported-platform error, got: {:?}", other),
    }
}

#[test]
fn test_asset_not_found_lists_every_name() {
    let mut prov = Provisioner::new(Os::Mac, Architecture::Aarch64);
    walk_to_release_fetch(&mut prov);
    let release = release_with("3.1.4", &["first.gz", "second.zip"]);
    let err = done(prov.step(Event::ReleaseFetched { result: Ok(release) })).unwrap_err();
    match err {
        ProvisionError::AssetNotFound { os, arch, expected, available } => {
            assert!(matches!(os, Os::Mac));
            assert!(matches!(arch, Architecture::Aarch64));
            assert_eq!(expected, "aptos-language-server-aarch64-apple-darwin.gz");
            assert_eq!(available, vec!["first.gz".to_string(), "second.zip".to_string()]);
        },
        other => panic!("expected the asset-not-found error, got: {:?}", other),
    }
}

#[test]
fn test_release_fetch_failure() {
    let mut prov = Provisioner::new(Os::Linux, Architecture::X8664);
    walk_to_release_fetch(&mut prov);
    let err = done(prov.step(Event::ReleaseFetched { result: Err("rate limited".to_string()) }))
        .unwrap_err();
    match err {
        ProvisionError::ReleaseFetch { message } => assert_eq!(message, "rate limited"),
        other => panic!("expected the release-fetch error, got: {:?}", other),
    }
    assert!(prov.cached_binary_path.is_none());
}

fn walk_to_directory_creation(prov: &mut Provisioner) {
    walk_to_release_fetch(prov);
    let release = release_with("1.2.0", &["aptos-language-server-x86_64-unknown-linux-gnu.gz"]);
    act(prov.step(Event::ReleaseFetched { result: Ok(release) }));
    act(prov.step(Event::FileStatus { is_file: false }));
    act(prov.step(Event::StatusReported));
}

#[test]
fn test_directory_creation_failure() {
    let mut prov = Provisioner::new(Os::Linux, Architecture::X8664);
    walk_to_directory_creation(&mut prov);
    let err = done(prov.step(Event::Completion { result: Err("disk full".to_string()) }))
        .unwrap_err();
    match err {
        ProvisionError::DirectoryCreation { message } => assert_eq!(message, "disk full"),
        other => panic!("expected the directory-creation error, got: {:?}", other),
    }
    assert!(prov.cached_binary_path.is_none());
}

#[test]
fn test_download_failure() {
    let mut prov = Provisioner::new(Os::Linux, Architecture::X8664);
    walk_to_directory_creation(&mut prov);
    act(prov.step(Event::Completion { result: Ok(()) }));
    let err = done(prov.step(Event::Completion { result: Err("connection reset".to_string()) }))
        .unwrap_err();
    match err {
        ProvisionError::Download { message } => assert_eq!(message, "connection reset"),
        other => panic!("expected the download error, got: {:?}", other),
    }
    assert!(prov.cached_binary_path.is_none());
}

#[test]
fn test_permission_marking_failure() {
    let mut prov = Provisioner::new(Os::Linux, Architecture::X8664);
    walk_to_directory_creation(&mut prov);
    act(prov.step(Event::Completion { result: Ok(()) }));
    act(prov.step(Event::Completion { result: Ok(()) }));
    let err = done(prov.step(Event::Completion { result: Err("not permitted".to_string()) }))
        .unwrap_err();
    match err {
        ProvisionError::PermissionMarking { message } => assert_eq!(message, "not permitted"),
        other => panic!("expected the permission-marking error, got: {:?}", other),
    }
    assert!(prov.cached_binary_path.is_none());
}

#[test]
fn test_cleanup_keeps_unrelated_and_current_entries() {
    let mut prov = Provisioner::new(Os::Linux, Architecture::X8664);
    walk_to_release_fetch(&mut prov);
    let release = release_with("2.0.0", &["aptos-language-server-x86_64-unknown-linux-gnu.gz"]);
    act(prov.step(Event::ReleaseFetched { result: Ok(release) }));
    act(prov.step(Event::FileStatus { is_file: true }));
    let entries = vec![
        "aptos-language-server-1.0.0".to_string(),
        "aptos-language-server-2.0.0".to_string(),
        "aptos-language-server-1.5.0".to_string(),
        "unrelated-dir".to_string(),
        "aptos-language-serve".to_string(),
    ];
    match act(prov.step(Event::DirectoryListing { entries })) {
        Request::RemoveEntries { names } => {
            assert_eq!(
                names,
                vec![
                    "aptos-language-server-1.0.0".to_string(),
                    "aptos-language-server-1.5.0".to_string(),
                ],
            );
        },
        _ => panic!("the scan must be followed by the removals"),
    }
}

#[test]
fn test_accepts_matches_pending_request() {
    let mut prov = Provisioner::new(Os::Linux, Architecture::X8664);
    assert!(!prov.accepts(&Event::FileStatus { is_file: true }));
    prov.start();
    assert!(prov.accepts(&Event::LookupResult { path: None }));
    assert!(!prov.accepts(&Event::StatusReported));
    prov.step(Event::LookupResult { path: None });
    assert!(prov.accepts(&Event::StatusReported));
    assert!(!prov.accepts(&Event::EntriesRemoved));
}

#[test]
fn test_language_server_command_shape() {
    let launch = language_server_command("some/dir/aptos-language-server".to_string());
    assert_eq!(launch.command, "some/dir/aptos-language-server");
    assert_eq!(launch.args, vec!["lsp-server".to_string()]);
    assert!(launch.env.is_empty());
}
