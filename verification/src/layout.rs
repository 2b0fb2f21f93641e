//! Fixed path layout: the per-user cache tree, the remote release endpoint,
//! and the bundled-artifact locations relative to the launcher's own
//! executable (and the working directory, for development use).

use vstd::prelude::*;
use vstd::string::StringExecFns;
use crate::config::Config;
use crate::path::{path_clone, path_join};

verus! {

/// Operating system the launcher runs on; selects the native bundled
/// executable's file name.
#[derive(Clone, Copy, PartialEq, Eq, Structural)]
pub enum Platform {
    Windows,
    MacOs,
    Linux,
}

/// Cache root: the platform cache base with the launcher's namespace
/// directory appended.
pub open spec fn spec_cache_root(base: Seq<Seq<char>>, namespace: Seq<char>) -> Seq<Seq<char>> {
    base.push(namespace)
}

/// The runnable entry point beneath a cache root.
pub open spec fn spec_entry_point(root: Seq<Seq<char>>) -> Seq<Seq<char>> {
    root.push("dist"@).push("index.js"@)
}

/// The dependency manifest beneath a cache root.
pub open spec fn spec_manifest(root: Seq<Seq<char>>) -> Seq<Seq<char>> {
    root.push("package.json"@)
}

/// The dependency-resolution output marker beneath a cache root.
pub open spec fn spec_marker(root: Seq<Seq<char>>) -> Seq<Seq<char>> {
    root.push("node_modules"@)
}

/// The transient unpack directory beneath a cache root.
pub open spec fn spec_temp(root: Seq<Seq<char>>) -> Seq<Seq<char>> {
    root.push("temp"@)
}

/// Lockfile evidence for the fastest-preferred package manager.
pub open spec fn spec_pnpm_lock(root: Seq<Seq<char>>) -> Seq<Seq<char>> {
    root.push("pnpm-lock.yaml"@)
}

/// Lockfile evidence for the second-preferred package manager.
pub open spec fn spec_yarn_lock(root: Seq<Seq<char>>) -> Seq<Seq<char>> {
    root.push("yarn.lock"@)
}

/// The release-metadata URL for a repository and version tag.
pub open spec fn spec_release_url(repo: Seq<char>, version: Seq<char>) -> Seq<char> {
    "https://api.github.com/repos/"@ + repo + "/releases/"@ + version
}

/// Bundled script variants, checked in order: the widely-compatible
/// `pkg-ready` form then the `standalone` form, first relative to the
/// launcher executable's directory, then to the working directory.
pub open spec fn spec_bundled_scripts(exe_dir: Seq<Seq<char>>, cwd: Seq<Seq<char>>) -> Seq<
    Seq<Seq<char>>,
> {
    seq![
        exe_dir.push("bundle"@).push("pkg-ready"@).push("index.js"@),
        exe_dir.push("bundle"@).push("standalone"@).push("index.js"@),
        cwd.push("bundle"@).push("pkg-ready"@).push("index.js"@),
        cwd.push("bundle"@).push("standalone"@).push("index.js"@),
    ]
}

/// File name of the native bundled executable for a platform.
pub open spec fn spec_native_name(p: Platform) -> Seq<char> {
    match p {
        Platform::Windows => "pi-win.exe"@,
        Platform::MacOs => "pi-macos"@,
        Platform::Linux => "pi-linux"@,
    }
}

/// Native bundled executable candidates: under `bundle/executables/`
/// relative to the executable directory, then to the working directory.
pub open spec fn spec_natives(
    exe_dir: Seq<Seq<char>>,
    cwd: Seq<Seq<char>>,
    p: Platform,
) -> Seq<Seq<Seq<char>>> {
    seq![
        exe_dir.push("bundle"@).push("executables"@).push(spec_native_name(p)),
        cwd.push("bundle"@).push("executables"@).push(spec_native_name(p)),
    ]
}

/// Appends the launcher's namespace directory to the platform cache base.
pub fn cache_root(base: &Vec<String>, cfg: &Config) -> (r: Vec<String>)
    ensures
        r.deep_view() == spec_cache_root(base.deep_view(), cfg.cache_namespace@),
{
    let mut r = path_clone(base);
    r.push(cfg.cache_namespace.clone());
    proof {
        assert(r.deep_view() =~= base.deep_view().push(cfg.cache_namespace@));
    }
    r
}

/// The runnable entry point beneath `root`.
pub fn entry_point(root: &Vec<String>) -> (r: Vec<String>)
    ensures
        r.deep_view() == spec_entry_point(root.deep_view()),
{
    let d = path_join(root, "dist");
    path_join(&d, "index.js")
}

/// The dependency manifest beneath `root`.
pub fn manifest(root: &Vec<String>) -> (r: Vec<String>)
    ensures
        r.deep_view() == spec_manifest(root.deep_view()),
{
    path_join(root, "package.json")
}

/// The dependency-resolution output marker beneath `root`.
pub fn marker(root: &Vec<String>) -> (r: Vec<String>)
    ensures
        r.deep_view() == spec_marker(root.deep_view()),
{
    path_join(root, "node_modules")
}

/// The transient unpack directory beneath `root`.
pub fn temp_dir(root: &Vec<String>) -> (r: Vec<String>)
    ensures
        r.deep_view() == spec_temp(root.deep_view()),
{
    path_join(root, "temp")
}

/// The pnpm lockfile beneath `root`.
pub fn pnpm_lock(root: &Vec<String>) -> (r: Vec<String>)
    ensures
        r.deep_view() == spec_pnpm_lock(root.deep_view()),
{
    path_join(root, "pnpm-lock.yaml")
}

/// The yarn lockfile beneath `root`.
pub fn yarn_lock(root: &Vec<String>) -> (r: Vec<String>)
    ensures
        r.deep_view() == spec_yarn_lock(root.deep_view()),
{
    path_join(root, "yarn.lock")
}

/// The release-metadata URL for the configured repository and version.
pub fn release_url(cfg: &Config) -> (u: String)
    ensures
        u@ == spec_release_url(cfg.repo@, cfg.version@),
{
    let u = String::from_str("https://api.github.com/repos/");
    let u = u.concat(cfg.repo.as_str());
    let u = u.concat("/releases/");
    u.concat(cfg.version.as_str())
}

/// One `bundle/<variant>/index.js` path under `base`.
fn bundle_script(base: &Vec<String>, variant: &str) -> (r: Vec<String>)
    ensures
        r.deep_view() == base.deep_view().push("bundle"@).push(variant@).push("index.js"@),
{
    let b = path_join(base, "bundle");
    let v = path_join(&b, variant);
    path_join(&v, "index.js")
}

/// The four bundled script candidates in priority order.
pub fn bundled_scripts(exe_dir: &Vec<String>, cwd: &Vec<String>) -> (r: Vec<Vec<String>>)
    ensures
        r.deep_view() == spec_bundled_scripts(exe_dir.deep_view(), cwd.deep_view()),
{
    let mut r: Vec<Vec<String>> = Vec::new();
    r.push(bundle_script(exe_dir, "pkg-ready"));
    r.push(bundle_script(exe_dir, "standalone"));
    r.push(bundle_script(cwd, "pkg-ready"));
    r.push(bundle_script(cwd, "standalone"));
    proof {
        assert(r.deep_view() =~= spec_bundled_scripts(exe_dir.deep_view(), cwd.deep_view()));
    }
    r
}

/// The native executable's file name for `p`.
pub fn native_name(p: Platform) -> (n: String)
    ensures
        n@ == spec_native_name(p),
{
    match p {
        Platform::Windows => String::from_str("pi-win.exe"),
        Platform::MacOs => String::from_str("pi-macos"),
        Platform::Linux => String::from_str("pi-linux"),
    }
}

/// One `bundle/executables/<name>` path under `base`.
fn bundle_native(base: &Vec<String>, p: Platform) -> (r: Vec<String>)
    ensures
        r.deep_view() == base.deep_view().push("bundle"@).push("executables"@).push(
            spec_native_name(p),
        ),
{
    let b = path_join(base, "bundle");
    let mut e = path_join(&b, "executables");
    e.push(native_name(p));
    proof {
        assert(e.deep_view() =~= base.deep_view().push("bundle"@).push("executables"@).push(
            spec_native_name(p),
        ));
    }
    e
}

/// The two native executable candidates in priority order.
pub fn natives(exe_dir: &Vec<String>, cwd: &Vec<String>, p: Platform) -> (r: Vec<Vec<String>>)
    ensures
        r.deep_view() == spec_natives(exe_dir.deep_view(), cwd.deep_view(), p),
{
    let mut r: Vec<Vec<String>> = Vec::new();
    r.push(bundle_native(exe_dir, p));
    r.push(bundle_native(cwd, p));
    proof {
        assert(r.deep_view() =~= spec_natives(exe_dir.deep_view(), cwd.deep_view(), p));
    }
    r
}

} // verus!
