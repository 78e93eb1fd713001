//! The resolver: maps an (operating system, architecture) pair to the
//! downloadable asset's filename and archive kind.

use crate::errors::ProvisionError;
use crate::text::ends_with;
use vstd::prelude::*;

verus! {

/// Operating systems the host can report.
#[derive(Clone, Copy, PartialEq, Eq, Structural, Debug)]
pub enum Os {
    Mac,
    Linux,
    Windows,
}

/// Processor architectures the host can report.
#[derive(Clone, Copy, PartialEq, Eq, Structural, Debug)]
pub enum Architecture {
    Aarch64,
    X86,
    X8664,
}

/// Packaging format of a downloadable asset.
#[derive(Clone, Copy, PartialEq, Eq, Structural, Debug)]
pub enum ArchiveKind {
    Gzip,
    Zip,
}

/// A resolved downloadable artifact: its exact asset name and how it is
/// packaged.
#[derive(Debug)]
pub struct AssetSpec {
    pub filename: String,
    pub archive_kind: ArchiveKind,
}

/// The platform pairs for which a prebuilt binary is published.
pub open spec fn platform_supported(os: Os, arch: Architecture) -> bool {
    match (os, arch) {
        (Os::Mac, Architecture::Aarch64) => true,
        (Os::Mac, Architecture::X8664) => true,
        (Os::Linux, Architecture::X8664) => true,
        (Os::Linux, Architecture::Aarch64) => true,
        (Os::Windows, Architecture::X8664) => true,
        _ => false,
    }
}

/// The published asset name for a supported platform pair.
pub open spec fn spec_asset_filename(os: Os, arch: Architecture) -> Seq<char> {
    match (os, arch) {
        (Os::Mac, Architecture::Aarch64) => "aptos-language-server-aarch64-apple-darwin.gz"@,
        (Os::Mac, Architecture::X8664) => "aptos-language-server-x86_64-apple-darwin.gz"@,
        (Os::Linux, Architecture::X8664) => "aptos-language-server-x86_64-unknown-linux-gnu.gz"@,
        (Os::Linux, Architecture::Aarch64) => "aptos-language-server-aarch64-unknown-linux-gnu.gz"@,
        (Os::Windows, Architecture::X8664) => "aptos-language-server-x86_64-pc-windows-msvc.zip"@,
        _ => Seq::empty(),
    }
}

/// The archive kind for a supported platform pair: every platform ships a
/// gzipped single file except Windows, which ships a zip.
pub open spec fn spec_archive_kind(os: Os, arch: Architecture) -> ArchiveKind {
    match os {
        Os::Windows => ArchiveKind::Zip,
        _ => ArchiveKind::Gzip,
    }
}

/// Resolve the asset to download for a platform pair. Succeeds exactly on
/// the supported pairs; any other pair is rejected with an error naming
/// both fields.
pub fn asset_name_for_platform(os: Os, arch: Architecture) -> (r: Result<
    AssetSpec,
    ProvisionError,
>)
    ensures
        r is Ok <==> platform_supported(os, arch),
        r matches Ok(a) ==> a.filename@ == spec_asset_filename(os, arch) && a.archive_kind
            == spec_archive_kind(os, arch),
        !platform_supported(os, arch) ==> r == Err::<AssetSpec, ProvisionError>(
            ProvisionError::UnsupportedPlatform { os, arch },
        ),
{
    match (os, arch) {
        (Os::Mac, Architecture::Aarch64) => Ok(
            AssetSpec {
                filename: "aptos-language-server-aarch64-apple-darwin.gz".to_owned(),
                archive_kind: ArchiveKind::Gzip,
            },
        ),
        (Os::Mac, Architecture::X8664) => Ok(
            AssetSpec {
                filename: "aptos-language-server-x86_64-apple-darwin.gz".to_owned(),
                archive_kind: ArchiveKind::Gzip,
            },
        ),
        (Os::Linux, Architecture::X8664) => Ok(
            AssetSpec {
                filename: "aptos-language-server-x86_64-unknown-linux-gnu.gz".to_owned(),
                archive_kind: ArchiveKind::Gzip,
            },
        ),
        (Os::Linux, Architecture::Aarch64) => Ok(
            AssetSpec {
                filename: "aptos-language-server-aarch64-unknown-linux-gnu.gz".to_owned(),
                archive_kind: ArchiveKind::Gzip,
            },
        ),
        (Os::Windows, Architecture::X8664) => Ok(
            AssetSpec {
                filename: "aptos-language-server-x86_64-pc-windows-msvc.zip".to_owned(),
                archive_kind: ArchiveKind::Zip,
            },
        ),
        _ => Err(ProvisionError::UnsupportedPlatform { os, arch }),
    }
}

/// The archive kind is consistent with the asset name on every supported
/// platform pair: the asset is tagged Gzip exactly when its name ends in
/// `.gz`, and Zip exactly when its name ends in `.zip`.
pub proof fn lemma_archive_kind_consistent(os: Os, arch: Architecture)
    requires
        platform_supported(os, arch),
    ensures
        (spec_archive_kind(os, arch) == ArchiveKind::Gzip) <==> ends_with(
            spec_asset_filename(os, arch),
            ".gz"@,
        ),
        (spec_archive_kind(os, arch) == ArchiveKind::Zip) <==> ends_with(
            spec_asset_filename(os, arch),
            ".zip"@,
        ),
{
    reveal_strlit(".gz");
    reveal_strlit(".zip");
    let f = spec_asset_filename(os, arch);
    match (os, arch) {
        (Os::Mac, Architecture::Aarch64) => {
            reveal_strlit("aptos-language-server-aarch64-apple-darwin.gz");
            lemma_gz_name(f);
        },
        (Os::Mac, Architecture::X8664) => {
            reveal_strlit("aptos-language-server-x86_64-apple-darwin.gz");
            lemma_gz_name(f);
        },
        (Os::Linux, Architecture::X8664) => {
            reveal_strlit("aptos-language-server-x86_64-unknown-linux-gnu.gz");
            lemma_gz_name(f);
        },
        (Os::Linux, Architecture::Aarch64) => {
            reveal_strlit("aptos-language-server-aarch64-unknown-linux-gnu.gz");
            lemma_gz_name(f);
        },
        (Os::Windows, Architecture::X8664) => {
            reveal_strlit("aptos-language-server-x86_64-pc-windows-msvc.zip");
            lemma_zip_name(f);
        },
        _ => {},
    }
}

/// A name whose last three characters are `.gz`, and whose fourth-last is
/// not a dot, ends in `.gz` and not in `.zip`.
proof fn lemma_gz_name(f: Seq<char>)
    requires
        f.len() >= 4,
        f[f.len() - 3] == '.',
        f[f.len() - 2] == 'g',
        f[f.len() - 1] == 'z',
        f[f.len() - 4] != '.',
    ensures
        ends_with(f, ".gz"@),
        !ends_with(f, ".zip"@),
{
    reveal_strlit(".gz");
    reveal_strlit(".zip");
    assert(f.subrange(f.len() - 3, f.len() as int) =~= ".gz"@);
    if ends_with(f, ".zip"@) {
        assert(f.subrange(f.len() - 4, f.len() as int)[0] == f[f.len() - 4]);
        assert(".zip"@[0] == '.');
        assert(false);
    }
}

/// A name whose last four characters are `.zip`, and whose third-last is
/// not a dot, ends in `.zip` and not in `.gz`.
proof fn lemma_zip_name(f: Seq<char>)
    requires
        f.len() >= 4,
        f[f.len() - 4] == '.',
        f[f.len() - 3] == 'z',
        f[f.len() - 2] == 'i',
        f[f.len() - 1] == 'p',
    ensures
        ends_with(f, ".zip"@),
        !ends_with(f, ".gz"@),
{
    reveal_strlit(".gz");
    reveal_strlit(".zip");
    assert(f.subrange(f.len() - 4, f.len() as int) =~= ".zip"@);
    if ends_with(f, ".gz"@) {
        assert(f.subrange(f.len() - 3, f.len() as int)[0] == f[f.len() - 3]);
        assert(".gz"@[0] == '.');
        assert(false);
    }
}

} // verus!
