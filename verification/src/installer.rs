//! Dependency-installer policy.
//!
//! The installer runs if and only if a dependency manifest exists under the
//! cache root and the dependency-resolution output marker is absent. The
//! package manager is selected from lockfile evidence in fixed priority
//! order, a candidate manager counting only when its binary answered a
//! version query; with no usable evidence the most ubiquitous manager is the
//! default. On failure the launcher prints one manual install command per
//! available manager.

use vstd::prelude::*;
use vstd::string::StringExecFns;

verus! {

/// A package manager the installer can drive.
#[derive(Clone, Copy, PartialEq, Eq, Structural, Debug)]
pub enum Manager {
    Pnpm,
    Yarn,
    Npm,
}

/// The installer runs exactly when a manifest exists and the marker is
/// absent.
pub open spec fn spec_install_gate(manifest_exists: bool, marker_exists: bool) -> bool {
    manifest_exists && !marker_exists
}

/// Decides whether dependency installation must run.
pub fn install_gate(manifest_exists: bool, marker_exists: bool) -> (r: bool)
    ensures
        r == spec_install_gate(manifest_exists, marker_exists),
{
    manifest_exists && !marker_exists
}

/// Manager selection: pnpm on its lockfile when invocable, then yarn on its
/// lockfile when invocable, else npm.
pub open spec fn spec_select_manager(
    pnpm_lock: bool,
    pnpm_ok: bool,
    yarn_lock: bool,
    yarn_ok: bool,
) -> Manager {
    if pnpm_lock && pnpm_ok {
        Manager::Pnpm
    } else if yarn_lock && yarn_ok {
        Manager::Yarn
    } else {
        Manager::Npm
    }
}

/// Selects the package manager from lockfile and availability evidence.
pub fn select_manager(pnpm_lock: bool, pnpm_ok: bool, yarn_lock: bool, yarn_ok: bool) -> (m:
    Manager)
    ensures
        m == spec_select_manager(pnpm_lock, pnpm_ok, yarn_lock, yarn_ok),
{
    if pnpm_lock && pnpm_ok {
        Manager::Pnpm
    } else if yarn_lock && yarn_ok {
        Manager::Yarn
    } else {
        Manager::Npm
    }
}

/// The binary name of a manager.
pub open spec fn spec_command_name(m: Manager) -> Seq<char> {
    match m {
        Manager::Pnpm => "pnpm"@,
        Manager::Yarn => "yarn"@,
        Manager::Npm => "npm"@,
    }
}

/// The manual command installing the tool as a local project dependency.
pub open spec fn spec_local_install_command(m: Manager) -> Seq<char> {
    match m {
        Manager::Pnpm => "pnpm add @0xshariq/package-installer"@,
        Manager::Yarn => "yarn add @0xshariq/package-installer"@,
        Manager::Npm => "npm install @0xshariq/package-installer"@,
    }
}

/// The manual command completing the install inside the cache directory.
pub open spec fn spec_cache_install_command(m: Manager) -> Seq<char> {
    match m {
        Manager::Pnpm => "pnpm install --production"@,
        Manager::Yarn => "yarn install --production"@,
        Manager::Npm => "npm install --production"@,
    }
}

impl Manager {
    /// The binary the driver invokes for this manager.
    pub fn command_name(&self) -> (s: String)
        ensures
            s@ == spec_command_name(*self),
    {
        match self {
            Manager::Pnpm => String::from_str("pnpm"),
            Manager::Yarn => String::from_str("yarn"),
            Manager::Npm => String::from_str("npm"),
        }
    }

    /// The arguments of the install invocation: production-only,
    /// non-interactive.
    pub fn install_args(&self) -> (a: Vec<String>)
        ensures
            a.deep_view() == seq!["install"@, "--production"@, "--silent"@],
    {
        let mut a: Vec<String> = Vec::new();
        a.push(String::from_str("install"));
        a.push(String::from_str("--production"));
        a.push(String::from_str("--silent"));
        proof {
            assert(a.deep_view() =~= seq!["install"@, "--production"@, "--silent"@]);
        }
        a
    }

    /// The manual local-dependency install command for this manager.
    pub fn local_install_command(&self) -> (s: String)
        ensures
            s@ == spec_local_install_command(*self),
    {
        match self {
            Manager::Pnpm => String::from_str("pnpm add @0xshariq/package-installer"),
            Manager::Yarn => String::from_str("yarn add @0xshariq/package-installer"),
            Manager::Npm => String::from_str("npm install @0xshariq/package-installer"),
        }
    }

    /// The manual in-cache install command for this manager.
    pub fn cache_install_command(&self) -> (s: String)
        ensures
            s@ == spec_cache_install_command(*self),
    {
        match self {
            Manager::Pnpm => String::from_str("pnpm install --production"),
            Manager::Yarn => String::from_str("yarn install --production"),
            Manager::Npm => String::from_str("npm install --production"),
        }
    }
}

/// The manual local-dependency commands enumerated in remediation output:
/// one per available manager, most ubiquitous first.
pub open spec fn spec_remediation_commands(npm_ok: bool, yarn_ok: bool, pnpm_ok: bool) -> Seq<
    Seq<char>,
> {
    (if npm_ok {
        seq![spec_local_install_command(Manager::Npm)]
    } else {
        Seq::<Seq<char>>::empty()
    }) + (if yarn_ok {
        seq![spec_local_install_command(Manager::Yarn)]
    } else {
        Seq::<Seq<char>>::empty()
    }) + (if pnpm_ok {
        seq![spec_local_install_command(Manager::Pnpm)]
    } else {
        Seq::<Seq<char>>::empty()
    })
}

/// Enumerates the manual install command of every available manager.
pub fn remediation_commands(npm_ok: bool, yarn_ok: bool, pnpm_ok: bool) -> (r: Vec<String>)
    ensures
        r.deep_view() == spec_remediation_commands(npm_ok, yarn_ok, pnpm_ok),
{
    let mut r: Vec<String> = Vec::new();
    if npm_ok {
        r.push(Manager::Npm.local_install_command());
    }
    if yarn_ok {
        r.push(Manager::Yarn.local_install_command());
    }
    if pnpm_ok {
        r.push(Manager::Pnpm.local_install_command());
    }
    proof {
        assert(r.deep_view() =~= spec_remediation_commands(npm_ok, yarn_ok, pnpm_ok));
    }
    r
}

} // verus!
