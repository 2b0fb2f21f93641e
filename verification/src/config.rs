//! Process-wide launcher configuration.
//!
//! The upstream repository identifier, the release tag, the cache namespace
//! and the scripting runtime are one immutable value constructed at startup
//! and passed by reference to every component, so that a harness can
//! substitute a fake repository or cache location.

use vstd::prelude::*;
use vstd::string::StringExecFns;

verus! {

/// Immutable launcher-wide settings.
pub struct Config {
    /// Upstream repository identifier, `<owner>/<name>`.
    pub repo: String,
    /// Release tag asked of the remote, by default `latest`.
    pub version: String,
    /// Namespace directory appended to the per-user cache root.
    pub cache_namespace: String,
    /// Name of the scripting runtime that runs script artifacts.
    pub runtime: String,
}

impl Config {
    /// The stock configuration the launcher ships with.
    pub fn standard() -> (c: Config)
        ensures
            c.repo@ == "0xshariq/rust_package_installer_cli"@,
            c.version@ == "latest"@,
            c.cache_namespace@ == ".package-installer-cli"@,
            c.runtime@ == "node"@,
    {
        Config {
            repo: String::from_str("0xshariq/rust_package_installer_cli"),
            version: String::from_str("latest"),
            cache_namespace: String::from_str(".package-installer-cli"),
            runtime: String::from_str("node"),
        }
    }
}

} // verus!
