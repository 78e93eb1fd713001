//! The resolver table: exact asset names, archive kinds, and the
//! rejection of unsupported platform pairs.

use move_on_aptos::errors::ProvisionError;
use move_on_aptos::platform::{asset_name_for_platform, Architecture, ArchiveKind, Os};

#[test]
fn test_asset_name_mac_m1() {
    let asset = asset_name_for_platform(Os::Mac, Architecture::Aarch64).unwrap();
    assert_eq!(asset.filename, "aptos-language-server-aarch64-apple-darwin.gz");
    assert!(matches!(asset.archive_kind, ArchiveKind::Gzip));
}

#[test]
fn test_asset_name_mac_intel() {
    let asset = asset_name_for_platform(Os::Mac, Architecture::X8664).unwrap();
    assert_eq!(asset.filename, "aptos-language-server-x86_64-apple-darwin.gz");
    assert!(matches!(asset.archive_kind, ArchiveKind::Gzip));
}

#[test]
fn test_asset_name_linux_x64() {
    let asset = asset_name_for_platform(Os::Linux, Architecture::X8664).unwrap();
    assert_eq!(asset.filename, "aptos-language-server-x86_64-unknown-linux-gnu.gz");
    assert!(matches!(asset.archive_kind, ArchiveKind::Gzip));
}

#[test]
fn test_asset_name_linux_aarch64() {
    let asset = asset_name_for_platform(Os::Linux, Architecture::Aarch64).unwrap();
    assert_eq!(asset.filename, "aptos-language-server-aarch64-unknown-linux-gnu.gz");
    assert!(matches!(asset.archive_kind, ArchiveKind::Gzip));
}

#[test]
fn test_asset_name_windows_x64() {
    let asset = asset_name_for_platform(Os::Windows, Architecture::X8664).unwrap();
    assert_eq!(asset.filename, "aptos-language-server-x86_64-pc-windows-msvc.zip");
    assert!(matches!(asset.archive_kind, ArchiveKind::Zip));
}

#[test]
fn test_unsupported_mac_x86() {
    match asset_name_for_platform(Os::Mac, Architecture::X86) {
        Err(ProvisionError::UnsupportedPlatform { os, arch }) => {
            assert!(matches!(os, Os::Mac));
            assert!(matches!(arch, Architecture::X86));
        },
        _ => panic!("an unlisted pair must be rejected"),
    }
}

#[test]
fn test_unsupported_linux_x86() {
    match asset_name_for_platform(Os::Linux, Architecture::X86) {
        Err(ProvisionError::UnsupportedPlatform { os, arch }) => {
            assert!(matches!(os, Os::Linux));
            assert!(matches!(arch, Architecture::X86));
        },
        _ => panic!("an unlisted pair must be rejected"),
    }
}

#[test]
fn test_unsupported_windows_aarch64() {
    match asset_name_for_platform(Os::Windows, Architecture::Aarch64) {
        Err(ProvisionError::UnsupportedPlatform { os, arch }) => {
            assert!(matches!(os, Os::Windows));
            assert!(matches!(arch, Architecture::Aarch64));
        },
        _ => panic!("an unlisted pair must be rejected"),
    }
}

#[test]
fn test_unsupported_message_names_both_fields() {
    let err = asset_name_for_platform(Os::Windows, Architecture::Aarch64).unwrap_err();
    let text = err.message();
    assert_eq!(text, "Unsupported platform: Windows-Aarch64");
    assert!(text.contains("Windows"));
    assert!(text.contains("Aarch64"));
}

#[test]
fn test_archive_kind_matches_suffix() {
    let supported = [
        (Os::Mac, Architecture::Aarch64),
        (Os::Mac, Architecture::X8664),
        (Os::Linux, Architecture::X8664),
        (Os::Linux, Architecture::Aarch64),
        (Os::Windows, Architecture::X8664),
    ];
    for (os, arch) in supported {
        let asset = asset_name_for_platform(os, arch).unwrap();
        if asset.filename.ends_with(".gz") {
            assert!(matches!(asset.archive_kind, ArchiveKind::Gzip));
        }
        if asset.filename.ends_with(".zip") {
            assert!(matches!(asset.archive_kind, ArchiveKind::Zip));
        }
        assert!(asset.filename.ends_with(".gz") || asset.filename.ends_with(".zip"));
    }
}
