//! The error values a provisioning attempt can surface, and their
//! human-readable rendering.

use crate::platform::{Architecture, Os};
use crate::text::{contains_seq, join_with, lemma_contains_append_left, lemma_contains_append_right,
    lemma_contains_self, lemma_join_contains, join_strings};
use vstd::prelude::*;

verus! {

/// Why a provisioning attempt failed. Every failure carries what a caller
/// needs for diagnosis; none is retried.
#[derive(Debug)]
pub enum ProvisionError {
    /// The (OS, architecture) pair is not in the resolver table.
    UnsupportedPlatform { os: Os, arch: Architecture },
    /// The latest-release lookup failed.
    ReleaseFetch { message: String },
    /// The release holds no asset with the resolved name. Carries the name
    /// that was looked for and every asset name the release offers.
    AssetNotFound { os: Os, arch: Architecture, expected: String, available: Vec<String> },
    /// The version directory could not be created.
    DirectoryCreation { message: String },
    /// Downloading or unpacking the asset failed.
    Download { message: String },
    /// Marking the downloaded binary executable failed.
    PermissionMarking { message: String },
}

/// The label used for an operating system in error text.
pub open spec fn spec_os_label(os: Os) -> Seq<char> {
    match os {
        Os::Mac => "Mac"@,
        Os::Linux => "Linux"@,
        Os::Windows => "Windows"@,
    }
}

/// The label used for an architecture in error text.
pub open spec fn spec_arch_label(arch: Architecture) -> Seq<char> {
    match arch {
        Architecture::Aarch64 => "Aarch64"@,
        Architecture::X86 => "X86"@,
        Architecture::X8664 => "X8664"@,
    }
}

/// The text of an asset-not-found failure: it names the platform, the
/// asset that was looked for, and every asset name the release offers.
pub open spec fn spec_asset_not_found_message(
    os: Os,
    arch: Architecture,
    expected: Seq<char>,
    available: Seq<Seq<char>>,
) -> Seq<char> {
    "No prebuilt binary found for "@ + spec_os_label(os) + "-"@ + spec_arch_label(arch)
        + ". Looking for asset: "@ + expected + ". Available assets: "@ + join_with(
        available,
        ", "@,
    )
}

/// The rendered text of each error value.
pub open spec fn spec_error_message(e: ProvisionError) -> Seq<char> {
    match e {
        ProvisionError::UnsupportedPlatform { os, arch } => "Unsupported platform: "@
            + spec_os_label(os) + "-"@ + spec_arch_label(arch),
        ProvisionError::ReleaseFetch { message } => "Failed to fetch latest release: "@ + message@,
        ProvisionError::AssetNotFound { os, arch, expected, available } =>
            spec_asset_not_found_message(os, arch, expected@, available.deep_view()),
        ProvisionError::DirectoryCreation { message } => "Failed to create directory: "@
            + message@,
        ProvisionError::Download { message } => "Failed to download language server: "@
            + message@,
        ProvisionError::PermissionMarking { message } => message@,
    }
}

/// The operating-system label as a string slice.
pub fn os_label(os: Os) -> (r: &'static str)
    ensures
        r@ == spec_os_label(os),
{
    match os {
        Os::Mac => "Mac",
        Os::Linux => "Linux",
        Os::Windows => "Windows",
    }
}

/// The architecture label as a string slice.
pub fn arch_label(arch: Architecture) -> (r: &'static str)
    ensures
        r@ == spec_arch_label(arch),
{
    match arch {
        Architecture::Aarch64 => "Aarch64",
        Architecture::X86 => "X86",
        Architecture::X8664 => "X8664",
    }
}

impl ProvisionError {
    /// Render the error as descriptive text.
    pub fn message(&self) -> (m: String)
        ensures
            m@ == spec_error_message(*self),
    {
        match self {
            ProvisionError::UnsupportedPlatform { os, arch } => {
                let mut m = "Unsupported platform: ".to_owned();
                m.append(os_label(*os));
                m.append("-");
                m.append(arch_label(*arch));
                m
            },
            ProvisionError::ReleaseFetch { message } => {
                let mut m = "Failed to fetch latest release: ".to_owned();
                m.append(message.as_str());
                m
            },
            ProvisionError::AssetNotFound { os, arch, expected, available } => {
                let mut m = "No prebuilt binary found for ".to_owned();
                m.append(os_label(*os));
                m.append("-");
                m.append(arch_label(*arch));
                m.append(". Looking for asset: ");
                m.append(expected.as_str());
                m.append(". Available assets: ");
                let joined = join_strings(available, ", ");
                m.append(joined.as_str());
                m
            },
            ProvisionError::DirectoryCreation { message } => {
                let mut m = "Failed to create directory: ".to_owned();
                m.append(message.as_str());
                m
            },
            ProvisionError::Download { message } => {
                let mut m = "Failed to download language server: ".to_owned();
                m.append(message.as_str());
                m
            },
            ProvisionError::PermissionMarking { message } => message.clone(),
        }
    }
}

/// An asset-not-found message names everything a reader needs: it contains
/// the asset name that was looked for, and each asset name the release
/// offers.
pub proof fn lemma_asset_not_found_message_names_all(
    os: Os,
    arch: Architecture,
    expected: Seq<char>,
    available: Seq<Seq<char>>,
)
    ensures
        contains_seq(spec_asset_not_found_message(os, arch, expected, available), expected),
        forall|k: int|
            0 <= k < available.len() ==> contains_seq(
                spec_asset_not_found_message(os, arch, expected, available),
                available[k],
            ),
{
    let head = "No prebuilt binary found for "@ + spec_os_label(os) + "-"@ + spec_arch_label(arch)
        + ". Looking for asset: "@;
    let before_list = head + expected + ". Available assets: "@;
    let joined = join_with(available, ", "@);

    lemma_contains_self(expected);
    lemma_contains_append_right(head, expected, expected);
    lemma_contains_append_left(head + expected, ". Available assets: "@, expected);
    lemma_contains_append_left(before_list, joined, expected);

    assert forall|k: int| 0 <= k < available.len() implies contains_seq(
        spec_asset_not_found_message(os, arch, expected, available),
        available[k],
    ) by {
        lemma_join_contains(available, ", "@, k);
        lemma_contains_append_right(before_list, joined, available[k]);
    }
}

} // verus!
