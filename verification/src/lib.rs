//! Provisioning logic for the `aptos-language-server` binary.
//!
//! The crate resolves the downloadable artifact for a target platform,
//! decides when an on-disk binary can be reused, and drives a managed
//! download with stale-version cleanup. All filesystem, network and host
//! interaction is requested from the caller through explicit
//! request/event values, so every decision in here is verified.

pub mod command;
pub mod errors;
pub mod platform;
pub mod provisioner;
pub mod text;
