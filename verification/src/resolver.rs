//! The multi-tier resolution pipeline.
//!
//! The resolver is an explicit state machine. Each transition of [`step`]
//! consumes the event answering the previous action and yields the next
//! action for the driver: stat these paths, fetch this URL, unpack this
//! archive, run this install, spawn this candidate, exit with this code.
//! The fixed priority order — project-local installation, cache with
//! on-demand provisioning and dependency installation, bundled scripts,
//! bundled native executable — and every fatality decision live in the
//! transition relation [`step_rel`], which [`step`] is proved to implement.
//!
//! Continuation policy: a local or cache candidate that fails to run is
//! terminal, while a bundled script that fails falls through to the next
//! bundled candidate.

use vstd::prelude::*;
use crate::artifact::{ArtifactKind, Candidate, Origin};
use crate::config::Config;
use crate::delegate::{exit_code, spec_exit_code};
use crate::installer::{install_gate, select_manager, spec_select_manager, Manager};
use crate::layout::{
    bundled_scripts, cache_root, entry_point, manifest, marker, natives, pnpm_lock, release_url,
    spec_bundled_scripts, spec_cache_root, spec_entry_point, spec_manifest, spec_marker,
    spec_natives, spec_pnpm_lock, spec_release_url, spec_temp, spec_yarn_lock, temp_dir,
    yarn_lock, Platform,
};
use crate::locator::{first_existing, local_candidates, spec_local_candidates};
use crate::path::path_clone;
use crate::provision::{extract_tarball_url, gunzip, gunzip_of, pick_extracted_dir, tarball_url_of};

verus! {

/// Immutable per-invocation inputs gathered by the driver before the first
/// transition.
pub struct Ctx {
    /// Launcher-wide configuration.
    pub cfg: Config,
    /// Absolute working directory, as components.
    pub cwd: Vec<String>,
    /// The platform's per-user cache base directory, as components.
    pub cache_base: Vec<String>,
    /// The directory containing the launcher's own executable.
    pub exe_dir: Vec<String>,
    /// The operating system the launcher runs on.
    pub platform: Platform,
}

pub open spec fn ctx_locals(ctx: Ctx) -> Seq<Seq<Seq<char>>> {
    spec_local_candidates(ctx.cwd.deep_view())
}

pub open spec fn ctx_root(ctx: Ctx) -> Seq<Seq<char>> {
    spec_cache_root(ctx.cache_base.deep_view(), ctx.cfg.cache_namespace@)
}

pub open spec fn ctx_entry(ctx: Ctx) -> Seq<Seq<char>> {
    spec_entry_point(ctx_root(ctx))
}

pub open spec fn ctx_manifest(ctx: Ctx) -> Seq<Seq<char>> {
    spec_manifest(ctx_root(ctx))
}

pub open spec fn ctx_marker(ctx: Ctx) -> Seq<Seq<char>> {
    spec_marker(ctx_root(ctx))
}

pub open spec fn ctx_temp(ctx: Ctx) -> Seq<Seq<char>> {
    spec_temp(ctx_root(ctx))
}

pub open spec fn ctx_url(ctx: Ctx) -> Seq<char> {
    spec_release_url(ctx.cfg.repo@, ctx.cfg.version@)
}

pub open spec fn ctx_scripts(ctx: Ctx) -> Seq<Seq<Seq<char>>> {
    spec_bundled_scripts(ctx.exe_dir.deep_view(), ctx.cwd.deep_view())
}

pub open spec fn ctx_natives(ctx: Ctx) -> Seq<Seq<Seq<char>>> {
    spec_natives(ctx.exe_dir.deep_view(), ctx.cwd.deep_view(), ctx.platform)
}

/// Resolution state. The machine starts at `Start` and is done at
/// `Finished`.
pub enum Phase {
    /// Nothing asked yet.
    Start,
    /// Awaiting existence flags for the local-install candidates.
    Local,
    /// Awaiting existence of the cache entry point.
    CacheEntry,
    /// Awaiting the release-metadata fetch.
    Metadata,
    /// Awaiting the archive download.
    Archive,
    /// Awaiting the unpack of the decompressed archive.
    Unpacked,
    /// Awaiting the copy of the unpacked tree into the cache root.
    Copied,
    /// Awaiting manifest and marker existence; `provisioned` records
    /// whether this invocation just populated the cache.
    DepsGate { provisioned: bool },
    /// Awaiting lockfile and manager-availability evidence.
    Managers { provisioned: bool },
    /// Awaiting the dependency-install outcome.
    Installing { provisioned: bool },
    /// Awaiting the post-provisioning entry-point check.
    Verify,
    /// Awaiting existence of bundled script candidate `idx`.
    BundledScript { idx: usize },
    /// Awaiting existence of native candidate `idx`.
    NativeCheck { idx: usize },
    /// Awaiting the delegated run's outcome. `next_script` is the bundled
    /// script index to fall through to on failure, `None` when failure is
    /// terminal.
    Delegating { candidate: Candidate, next_script: Option<usize> },
    /// Terminal: the process exits with `code`.
    Finished { code: i32 },
}

/// An observation the driver reports back to the machine.
pub enum Event {
    /// Starts the machine.
    Go,
    /// One existence flag per path of the preceding `StatMany`.
    ExistsMany { flags: Vec<bool> },
    /// Existence of the single path just asked about.
    Exists { yes: bool },
    /// Existence of the manifest and of the marker.
    Exists2 { manifest: bool, marker: bool },
    /// Lockfile existence and manager invocability.
    ManagerEvidence { pnpm_lock: bool, pnpm_ok: bool, yarn_lock: bool, yarn_ok: bool },
    /// Whether the install command spawned, and whether it succeeded.
    InstallResult { spawned: bool, success: bool },
    /// Transport success, HTTP status success, and the response text.
    FetchResult { reached: bool, status_ok: bool, body: String },
    /// Transport success, HTTP status success, and the response bytes.
    BlobResult { reached: bool, status_ok: bool, data: Vec<u8> },
    /// Whether unpacking succeeded, and the top-level directories produced.
    UnpackResult { ok: bool, top_dirs: Vec<String> },
    /// Whether the recursive copy succeeded.
    CopyResult { ok: bool },
    /// Whether the child spawned, and its exit code if it completed.
    RunResult { spawned: bool, code: Option<i32> },
}

/// What the driver must do next.
pub enum Action {
    /// Stat each path; answer with `ExistsMany` in the same order.
    StatMany { paths: Vec<Vec<String>> },
    /// Create `dir` if absent, then stat `entry`; answer with `Exists`.
    EnsureDirAndStat { dir: Vec<String>, entry: Vec<String> },
    /// Stat one path; answer with `Exists`.
    Stat { path: Vec<String> },
    /// Stat the manifest and the marker; answer with `Exists2`.
    Stat2 { manifest: Vec<String>, marker: Vec<String> },
    /// Stat both lockfiles and probe each implied manager's binary with a
    /// version query; answer with `ManagerEvidence`.
    ProbeManagers { pnpm_lock: Vec<String>, yarn_lock: Vec<String> },
    /// Run the manager's install command with `dir` as working directory;
    /// answer with `InstallResult`.
    RunInstall { manager: Manager, dir: Vec<String> },
    /// Fetch the release metadata at `url`; answer with `FetchResult`.
    Fetch { url: String },
    /// Download the archive at `url`; answer with `BlobResult`.
    Download { url: String },
    /// Delete a stale `dest`, recreate it, unpack the tar bytes into it and
    /// list its top-level directories; answer with `UnpackResult`.
    Unpack { tar: Vec<u8>, dest: Vec<String> },
    /// Recursively copy `from` into `to`; answer with `CopyResult`.
    CopyTree { from: Vec<String>, to: Vec<String> },
    /// Delete the transient `temp` directory, then stat `entry`; answer
    /// with `Exists`.
    FinishProvision { temp: Vec<String>, entry: Vec<String> },
    /// Spawn the candidate (see `delegate::spawn_plan`); answer with
    /// `RunResult`.
    Run { candidate: Candidate },
    /// Terminal: exit with `code`; print remediation guidance first when
    /// `remediation` is set.
    Exit { code: i32, remediation: bool },
}

/// The event kind each phase awaits.
pub open spec fn expects(ctx: Ctx, p: Phase, e: Event) -> bool {
    match p {
        Phase::Start => e is Go,
        Phase::Local => e matches Event::ExistsMany { flags } && flags@.len() == ctx_locals(
            ctx,
        ).len(),
        Phase::CacheEntry => e is Exists,
        Phase::Metadata => e is FetchResult,
        Phase::Archive => e is BlobResult,
        Phase::Unpacked => e is UnpackResult,
        Phase::Copied => e is CopyResult,
        Phase::DepsGate { .. } => e is Exists2,
        Phase::Managers { .. } => e is ManagerEvidence,
        Phase::Installing { .. } => e is InstallResult,
        Phase::Verify => e is Exists,
        Phase::BundledScript { idx } => idx < 4 && e is Exists,
        Phase::NativeCheck { idx } => idx < 2 && e is Exists,
        Phase::Delegating { next_script, .. } => (next_script matches Some(j) ==> 1 <= j <= 4)
            && e is RunResult,
        Phase::Finished { .. } => false,
    }
}

/// The action runs this candidate.
pub open spec fn is_run(a: Action, kind: ArtifactKind, path: Seq<Seq<char>>, origin: Origin) -> bool {
    &&& a matches Action::Run { candidate }
    &&& candidate.kind == kind
    &&& candidate.path.deep_view() == path
    &&& candidate.origin == origin
}

/// The phase awaits this candidate's run, with this fallthrough.
pub open spec fn is_delegating(
    p: Phase,
    kind: ArtifactKind,
    path: Seq<Seq<char>>,
    origin: Origin,
    next: Option<usize>,
) -> bool {
    &&& p matches Phase::Delegating { candidate, next_script }
    &&& candidate.kind == kind
    &&& candidate.path.deep_view() == path
    &&& candidate.origin == origin
    &&& next_script == next
}

/// The action stats exactly this path.
pub open spec fn is_stat(a: Action, path: Seq<Seq<char>>) -> bool {
    a matches Action::Stat { path: q } && q.deep_view() == path
}

/// Entering the bundled-artifact tier: stat the first bundled script.
pub open spec fn to_fallback(ctx: Ctx, p: Phase, a: Action) -> bool {
    &&& p matches Phase::BundledScript { idx } && idx == 0
    &&& is_stat(a, ctx_scripts(ctx)[0])
}

/// Yield the cache entry point as the resolved candidate.
pub open spec fn to_cache_delegate(ctx: Ctx, p: Phase, a: Action) -> bool {
    &&& is_delegating(p, ArtifactKind::Script, ctx_entry(ctx), Origin::Cache, None)
    &&& is_run(a, ArtifactKind::Script, ctx_entry(ctx), Origin::Cache)
}

/// Ask for the manifest/marker pair.
pub open spec fn to_deps_gate(ctx: Ctx, p: Phase, a: Action, provisioned: bool) -> bool {
    &&& p matches Phase::DepsGate { provisioned: q } && q == provisioned
    &&& a matches Action::Stat2 { manifest, marker } && manifest.deep_view() == ctx_manifest(ctx)
        && marker.deep_view() == ctx_marker(ctx)
}

/// Clean up the transient directory and re-check the entry point.
pub open spec fn to_verify(ctx: Ctx, p: Phase, a: Action) -> bool {
    &&& p is Verify
    &&& a matches Action::FinishProvision { temp, entry } && temp.deep_view() == ctx_temp(ctx)
        && entry.deep_view() == ctx_entry(ctx)
}

/// The transition relation of the launcher. `step` is proved to implement
/// it; every stated property of resolution is a property of this relation.
pub open spec fn step_rel(ctx: Ctx, p: Phase, e: Event, p2: Phase, a: Action) -> bool {
    match p {
        Phase::Start => {
            &&& e is Go
            &&& p2 is Local
            &&& a matches Action::StatMany { paths } && paths.deep_view() == ctx_locals(ctx)
        },
        Phase::Local => {
            &&& e matches Event::ExistsMany { flags }
            &&& flags@.len() == ctx_locals(ctx).len()
            &&& if exists|i: int| 0 <= i < flags@.len() && flags@[i] {
                exists|i: int|
                    {
                        &&& 0 <= i < flags@.len()
                        &&& #[trigger] flags@[i]
                        &&& forall|j: int| 0 <= j < i ==> !flags@[j]
                        &&& is_delegating(
                            p2,
                            ArtifactKind::Script,
                            ctx_locals(ctx)[i],
                            Origin::LocalProject,
                            None,
                        )
                        &&& is_run(a, ArtifactKind::Script, ctx_locals(ctx)[i], Origin::LocalProject)
                    }
            } else {
                &&& p2 is CacheEntry
                &&& a matches Action::EnsureDirAndStat { dir, entry } && dir.deep_view() == ctx_root(
                    ctx,
                ) && entry.deep_view() == ctx_entry(ctx)
            }
        },
        Phase::CacheEntry => {
            &&& e matches Event::Exists { yes }
            &&& if yes {
                to_deps_gate(ctx, p2, a, false)
            } else {
                &&& p2 is Metadata
                &&& a matches Action::Fetch { url } && url@ == ctx_url(ctx)
            }
        },
        Phase::Metadata => {
            &&& e matches Event::FetchResult { reached, status_ok, body }
            &&& if reached && status_ok && tarball_url_of(body@) is Some {
                &&& p2 is Archive
                &&& a matches Action::Download { url } && Some(url@) == tarball_url_of(body@)
            } else {
                to_fallback(ctx, p2, a)
            }
        },
        Phase::Archive => {
            &&& e matches Event::BlobResult { reached, status_ok, data }
            &&& if reached && status_ok && gunzip_of(data@) is Some {
                &&& p2 is Unpacked
                &&& a matches Action::Unpack { tar, dest } && Some(tar@) == gunzip_of(data@)
                    && dest.deep_view() == ctx_temp(ctx)
            } else {
                to_fallback(ctx, p2, a)
            }
        },
        Phase::Unpacked => {
            &&& e matches Event::UnpackResult { ok, top_dirs }
            &&& if ok && top_dirs.deep_view().len() > 0 {
                &&& p2 is Copied
                &&& a matches Action::CopyTree { from, to } && from.deep_view() == ctx_temp(
                    ctx,
                ).push(top_dirs.deep_view()[0]) && to.deep_view() == ctx_root(ctx)
            } else {
                to_fallback(ctx, p2, a)
            }
        },
        Phase::Copied => {
            &&& e matches Event::CopyResult { ok }
            &&& if ok {
                to_deps_gate(ctx, p2, a, true)
            } else {
                to_fallback(ctx, p2, a)
            }
        },
        Phase::DepsGate { provisioned } => {
            &&& e matches Event::Exists2 { manifest, marker }
            &&& if manifest && !marker {
                &&& p2 matches Phase::Managers { provisioned: q } && q == provisioned
                &&& a matches Action::ProbeManagers { pnpm_lock, yarn_lock } && pnpm_lock.deep_view()
                    == spec_pnpm_lock(ctx_root(ctx)) && yarn_lock.deep_view() == spec_yarn_lock(
                    ctx_root(ctx),
                )
            } else if provisioned {
                to_verify(ctx, p2, a)
            } else {
                to_cache_delegate(ctx, p2, a)
            }
        },
        Phase::Managers { provisioned } => {
            &&& e matches Event::ManagerEvidence { pnpm_lock, pnpm_ok, yarn_lock, yarn_ok }
            &&& p2 matches Phase::Installing { provisioned: q } && q == provisioned
            &&& a matches Action::RunInstall { manager, dir } && manager == spec_select_manager(
                pnpm_lock,
                pnpm_ok,
                yarn_lock,
                yarn_ok,
            ) && dir.deep_view() == ctx_root(ctx)
        },
        Phase::Installing { provisioned } => {
            &&& e is InstallResult
            &&& if provisioned {
                to_verify(ctx, p2, a)
            } else {
                to_cache_delegate(ctx, p2, a)
            }
        },
        Phase::Verify => {
            &&& e matches Event::Exists { yes }
            &&& if yes {
                to_cache_delegate(ctx, p2, a)
            } else {
                to_fallback(ctx, p2, a)
            }
        },
        Phase::BundledScript { idx } => {
            &&& idx < 4
            &&& e matches Event::Exists { yes }
            &&& if yes {
                &&& is_delegating(
                    p2,
                    ArtifactKind::Script,
                    ctx_scripts(ctx)[idx as int],
                    Origin::Bundled,
                    Some((idx + 1) as usize),
                )
                &&& is_run(a, ArtifactKind::Script, ctx_scripts(ctx)[idx as int], Origin::Bundled)
            } else if idx + 1 < 4 {
                &&& p2 matches Phase::BundledScript { idx: k } && k == idx + 1
                &&& is_stat(a, ctx_scripts(ctx)[idx + 1])
            } else {
                &&& p2 matches Phase::NativeCheck { idx: k } && k == 0
                &&& is_stat(a, ctx_natives(ctx)[0])
            }
        },
        Phase::NativeCheck { idx } => {
            &&& idx < 2
            &&& e matches Event::Exists { yes }
            &&& if yes {
                &&& is_delegating(
                    p2,
                    ArtifactKind::NativeExecutable,
                    ctx_natives(ctx)[idx as int],
                    Origin::Bundled,
                    None,
                )
                &&& is_run(
                    a,
                    ArtifactKind::NativeExecutable,
                    ctx_natives(ctx)[idx as int],
                    Origin::Bundled,
                )
            } else if idx + 1 < 2 {
                &&& p2 matches Phase::NativeCheck { idx: k } && k == 1
                &&& is_stat(a, ctx_natives(ctx)[1])
            } else {
                &&& p2 matches Phase::Finished { code } && code == 1
                &&& a matches Action::Exit { code, remediation } && code == 1 && remediation
            }
        },
        Phase::Delegating { candidate: _, next_script } => {
            &&& e matches Event::RunResult { spawned, code }
            &&& match next_script {
                Some(j) => {
                    &&& 1 <= j <= 4
                    &&& if spawned && (code matches Some(c) && c == 0) {
                        &&& p2 matches Phase::Finished { code: f } && f == 0
                        &&& a matches Action::Exit { code, remediation } && code == 0
                            && !remediation
                    } else if j < 4 {
                        &&& p2 matches Phase::BundledScript { idx } && idx == j
                        &&& is_stat(a, ctx_scripts(ctx)[j as int])
                    } else {
                        &&& p2 matches Phase::NativeCheck { idx } && idx == 0
                        &&& is_stat(a, ctx_natives(ctx)[0])
                    }
                },
                None => {
                    &&& p2 matches Phase::Finished { code: f } && f as int == spec_exit_code(
                        spawned,
                        code,
                    )
                    &&& a matches Action::Exit { code: c, remediation } && c as int
                        == spec_exit_code(spawned, code) && remediation == !spawned
                },
            }
        },
        Phase::Finished { .. } => false,
    }
}

/// Enter the bundled tier.
fn fallback(ctx: &Ctx) -> (r: (Phase, Action))
    ensures
        to_fallback(*ctx, r.0, r.1),
{
    let scripts = bundled_scripts(&ctx.exe_dir, &ctx.cwd);
    proof {
        assert(scripts.deep_view().len() == scripts@.len());
        assert(scripts@[0].deep_view() == ctx_scripts(*ctx)[0]);
    }
    let path = path_clone(&scripts[0]);
    (Phase::BundledScript { idx: 0 }, Action::Stat { path })
}

/// Yield the cache entry point.
fn delegate_entry(ctx: &Ctx) -> (r: (Phase, Action))
    ensures
        to_cache_delegate(*ctx, r.0, r.1),
{
    let root = cache_root(&ctx.cache_base, &ctx.cfg);
    let p1 = entry_point(&root);
    let p2 = entry_point(&root);
    (
        Phase::Delegating {
            candidate: Candidate { kind: ArtifactKind::Script, path: p1, origin: Origin::Cache },
            next_script: None,
        },
        Action::Run {
            candidate: Candidate { kind: ArtifactKind::Script, path: p2, origin: Origin::Cache },
        },
    )
}

/// Ask for the manifest/marker pair.
fn gate_check(ctx: &Ctx, provisioned: bool) -> (r: (Phase, Action))
    ensures
        to_deps_gate(*ctx, r.0, r.1, provisioned),
{
    let root = cache_root(&ctx.cache_base, &ctx.cfg);
    let m = manifest(&root);
    let k = marker(&root);
    (Phase::DepsGate { provisioned }, Action::Stat2 { manifest: m, marker: k })
}

/// Clean up the transient directory and re-check the entry point.
fn finish_provision(ctx: &Ctx) -> (r: (Phase, Action))
    ensures
        to_verify(*ctx, r.0, r.1),
{
    let root = cache_root(&ctx.cache_base, &ctx.cfg);
    let t = temp_dir(&root);
    let e = entry_point(&root);
    (Phase::Verify, Action::FinishProvision { temp: t, entry: e })
}

/// One transition of the launcher: consumes the event answering the
/// previous action and yields the next phase and the next action.
pub fn step(ctx: &Ctx, p: Phase, e: Event) -> (r: (Phase, Action))
    requires
        expects(*ctx, p, e),
    ensures
        step_rel(*ctx, p, e, r.0, r.1),
{
    match p {
        Phase::Start => {
            let paths = local_candidates(&ctx.cwd);
            (Phase::Local, Action::StatMany { paths })
        },
        Phase::Local => {
            match e {
                Event::ExistsMany { flags } => {
                    let cands = local_candidates(&ctx.cwd);
                    proof {
                        assert(cands@.len() == cands.deep_view().len());
                        assert(flags@.len() == cands@.len());
                    }
                    match first_existing(&cands, &flags) {
                        Some(i) => {
                            proof {
                                assert(cands[i as int].deep_view() == ctx_locals(*ctx)[i as int]);
                            }
                            let p1 = path_clone(&cands[i]);
                            let p2 = path_clone(&cands[i]);
                            let r = (
                                Phase::Delegating {
                                    candidate: Candidate {
                                        kind: ArtifactKind::Script,
                                        path: p1,
                                        origin: Origin::LocalProject,
                                    },
                                    next_script: None,
                                },
                                Action::Run {
                                    candidate: Candidate {
                                        kind: ArtifactKind::Script,
                                        path: p2,
                                        origin: Origin::LocalProject,
                                    },
                                },
                            );
                            proof {
                                assert(flags@[i as int]);
                            }
                            r
                        },
                        None => {
                            let root = cache_root(&ctx.cache_base, &ctx.cfg);
                            let entry = entry_point(&root);
                            (Phase::CacheEntry, Action::EnsureDirAndStat { dir: root, entry })
                        },
                    }
                },
                _ => unreached(),
            }
        },
        Phase::CacheEntry => {
            match e {
                Event::Exists { yes } => {
                    if yes {
                        gate_check(ctx, false)
                    } else {
                        (Phase::Metadata, Action::Fetch { url: release_url(&ctx.cfg) })
                    }
                },
                _ => unreached(),
            }
        },
        Phase::Metadata => {
            match e {
                Event::FetchResult { reached, status_ok, body } => {
                    if reached && status_ok {
                        match extract_tarball_url(body.as_str()) {
                            Some(url) => (Phase::Archive, Action::Download { url }),
                            None => fallback(ctx),
                        }
                    } else {
                        fallback(ctx)
                    }
                },
                _ => unreached(),
            }
        },
        Phase::Archive => {
            match e {
                Event::BlobResult { reached, status_ok, data } => {
                    if reached && status_ok {
                        match gunzip(&data) {
                            Some(tar) => {
                                let root = cache_root(&ctx.cache_base, &ctx.cfg);
                                let dest = temp_dir(&root);
                                (Phase::Unpacked, Action::Unpack { tar, dest })
                            },
                            None => fallback(ctx),
                        }
                    } else {
                        fallback(ctx)
                    }
                },
                _ => unreached(),
            }
        },
        Phase::Unpacked => {
            match e {
                Event::UnpackResult { ok, top_dirs } => {
                    if ok {
                        match pick_extracted_dir(&top_dirs) {
                            Some(d) => {
                                let root = cache_root(&ctx.cache_base, &ctx.cfg);
                                let mut from = temp_dir(&root);
                                from.push(d);
                                proof {
                                    assert(from.deep_view() =~= ctx_temp(*ctx).push(
                                        top_dirs.deep_view()[0],
                                    ));
                                }
                                (Phase::Copied, Action::CopyTree { from, to: root })
                            },
                            None => fallback(ctx),
                        }
                    } else {
                        fallback(ctx)
                    }
                },
                _ => unreached(),
            }
        },
        Phase::Copied => {
            match e {
                Event::CopyResult { ok } => {
                    if ok {
                        gate_check(ctx, true)
                    } else {
                        fallback(ctx)
                    }
                },
                _ => unreached(),
            }
        },
        Phase::DepsGate { provisioned } => {
            match e {
                Event::Exists2 { manifest: m, marker: k } => {
                    if install_gate(m, k) {
                        let root = cache_root(&ctx.cache_base, &ctx.cfg);
                        let pl = pnpm_lock(&root);
                        let yl = yarn_lock(&root);
                        (
                            Phase::Managers { provisioned },
                            Action::ProbeManagers { pnpm_lock: pl, yarn_lock: yl },
                        )
                    } else if provisioned {
                        finish_provision(ctx)
                    } else {
                        delegate_entry(ctx)
                    }
                },
                _ => unreached(),
            }
        },
        Phase::Managers { provisioned } => {
            match e {
                Event::ManagerEvidence { pnpm_lock: pl, pnpm_ok: po, yarn_lock: yl, yarn_ok: yo } => {
                    let m = select_manager(pl, po, yl, yo);
                    let root = cache_root(&ctx.cache_base, &ctx.cfg);
                    (Phase::Installing { provisioned }, Action::RunInstall { manager: m, dir: root })
                },
                _ => unreached(),
            }
        },
        Phase::Installing { provisioned } => {
            match e {
                Event::InstallResult { .. } => {
                    if provisioned {
                        finish_provision(ctx)
                    } else {
                        delegate_entry(ctx)
                    }
                },
                _ => unreached(),
            }
        },
        Phase::Verify => {
            match e {
                Event::Exists { yes } => {
                    if yes {
                        delegate_entry(ctx)
                    } else {
                        fallback(ctx)
                    }
                },
                _ => unreached(),
            }
        },
        Phase::BundledScript { idx } => {
            match e {
                Event::Exists { yes } => {
                    let scripts = bundled_scripts(&ctx.exe_dir, &ctx.cwd);
                    proof {
                        assert(scripts.deep_view().len() == scripts@.len());
                        assert(scripts@[idx as int].deep_view() == ctx_scripts(*ctx)[idx as int]);
                    }
                    if yes {
                        let p1 = path_clone(&scripts[idx]);
                        let p2 = path_clone(&scripts[idx]);
                        (
                            Phase::Delegating {
                                candidate: Candidate {
                                    kind: ArtifactKind::Script,
                                    path: p1,
                                    origin: Origin::Bundled,
                                },
                                next_script: Some(idx + 1),
                            },
                            Action::Run {
                                candidate: Candidate {
                                    kind: ArtifactKind::Script,
                                    path: p2,
                                    origin: Origin::Bundled,
                                },
                            },
                        )
                    } else if idx + 1 < 4 {
                        proof {
                            assert(scripts@[idx + 1].deep_view() == ctx_scripts(*ctx)[idx + 1]);
                        }
                        let path = path_clone(&scripts[idx + 1]);
                        (Phase::BundledScript { idx: idx + 1 }, Action::Stat { path })
                    } else {
                        let nats = natives(&ctx.exe_dir, &ctx.cwd, ctx.platform);
                        proof {
                            assert(nats.deep_view().len() == nats@.len());
                            assert(nats@[0].deep_view() == ctx_natives(*ctx)[0]);
                        }
                        let path = path_clone(&nats[0]);
                        (Phase::NativeCheck { idx: 0 }, Action::Stat { path })
                    }
                },
                _ => unreached(),
            }
        },
        Phase::NativeCheck { idx } => {
            match e {
                Event::Exists { yes } => {
                    let nats = natives(&ctx.exe_dir, &ctx.cwd, ctx.platform);
                    proof {
                        assert(nats.deep_view().len() == nats@.len());
                        assert(nats@[idx as int].deep_view() == ctx_natives(*ctx)[idx as int]);
                    }
                    if yes {
                        let p1 = path_clone(&nats[idx]);
                        let p2 = path_clone(&nats[idx]);
                        (
                            Phase::Delegating {
                                candidate: Candidate {
                                    kind: ArtifactKind::NativeExecutable,
                                    path: p1,
                                    origin: Origin::Bundled,
                                },
                                next_script: None,
                            },
                            Action::Run {
                                candidate: Candidate {
                                    kind: ArtifactKind::NativeExecutable,
                                    path: p2,
                                    origin: Origin::Bundled,
                                },
                            },
                        )
                    } else if idx + 1 < 2 {
                        proof {
                            assert(nats@[1].deep_view() == ctx_natives(*ctx)[1]);
                        }
                        let path = path_clone(&nats[1]);
                        (Phase::NativeCheck { idx: 1 }, Action::Stat { path })
                    } else {
                        (
                            Phase::Finished { code: 1 },
                            Action::Exit { code: 1, remediation: true },
                        )
                    }
                },
                _ => unreached(),
            }
        },
        Phase::Delegating { candidate: _, next_script } => {
            match e {
                Event::RunResult { spawned, code } => {
                    match next_script {
                        Some(j) => {
                            let success = spawned && (match code {
                                Some(c) => c == 0,
                                None => false,
                            });
                            if success {
                                (
                                    Phase::Finished { code: 0 },
                                    Action::Exit { code: 0, remediation: false },
                                )
                            } else if j < 4 {
                                let scripts = bundled_scripts(&ctx.exe_dir, &ctx.cwd);
                                proof {
                                    assert(scripts.deep_view().len() == scripts@.len());
                                    assert(scripts@[j as int].deep_view() == ctx_scripts(
                                        *ctx,
                                    )[j as int]);
                                }
                                let path = path_clone(&scripts[j]);
                                (Phase::BundledScript { idx: j }, Action::Stat { path })
                            } else {
                                let nats = natives(&ctx.exe_dir, &ctx.cwd, ctx.platform);
                                proof {
                                    assert(nats.deep_view().len() == nats@.len());
                                    assert(nats@[0].deep_view() == ctx_natives(*ctx)[0]);
                                }
                                let path = path_clone(&nats[0]);
                                (Phase::NativeCheck { idx: 0 }, Action::Stat { path })
                            }
                        },
                        None => {
                            let c = exit_code(spawned, code);
                            (
                                Phase::Finished { code: c },
                                Action::Exit { code: c, remediation: !spawned },
                            )
                        },
                    }
                },
                _ => unreached(),
            }
        },
        Phase::Finished { .. } => unreached(),
    }
}

} // verus!
