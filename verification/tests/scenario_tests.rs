use std::io::Write;

use pi_launcher::artifact::{ArtifactKind, Origin};
use pi_launcher::config::Config;
use pi_launcher::delegate::spawn_plan;
use pi_launcher::layout::Platform;
use pi_launcher::resolver::{step, Action, Ctx, Event, Phase};

fn segs(parts: &[&str]) -> Vec<String> {
    parts.iter().map(|s| s.to_string()).collect()
}

fn test_ctx() -> Ctx {
    Ctx {
        cfg: Config::standard(),
        cwd: segs(&["work"]),
        cache_base: segs(&["cachebase"]),
        exe_dir: segs(&["launcherdir"]),
        platform: Platform::Linux,
    }
}

fn cache_root_path() -> Vec<String> {
    segs(&["cachebase", ".package-installer-cli"])
}

fn entry_path() -> Vec<String> {
    segs(&["cachebase", ".package-installer-cli", "dist", "index.js"])
}

fn all_false(a: &Action) -> Event {
    match a {
        Action::StatMany { paths } => Event::ExistsMany { flags: vec![false; paths.len()] },
        _ => panic!("expected a StatMany action"),
    }
}

/// An in-memory gzipped tarball wrapping everything in one top directory.
fn tiny_tarball(top: &str) -> (Vec<u8>, Vec<u8>) {
    let mut builder = tar::Builder::new(Vec::new());
    let content = b"{}";
    let mut header = tar::Header::new_gnu();
    header.set_size(content.len() as u64);
    header.set_mode(0o644);
    header.set_cksum();
    builder
        .append_data(&mut header, format!("{}/package.json", top), &content[..])
        .unwrap();
    let tar_bytes = builder.into_inner().unwrap();
    let mut gz = flate2::write::GzEncoder::new(Vec::new(), flate2::Compression::default());
    gz.write_all(&tar_bytes).unwrap();
    let gz_bytes = gz.finish().unwrap();
    (tar_bytes, gz_bytes)
}

fn count_fetches(actions: &[Action]) -> usize {
    actions
        .iter()
        .filter(|a| matches!(a, Action::Fetch { .. }))
        .count()
}

fn count_downloads(actions: &[Action]) -> usize {
    actions
        .iter()
        .filter(|a| matches!(a, Action::Download { .. }))
        .count()
}

#[test]
fn scenario_a_empty_cache_network_reachable() {
    let ctx = test_ctx();
    let mut actions: Vec<Action> = Vec::new();

    let (p, a) = step(&ctx, Phase::Start, Event::Go);
    let e = all_false(&a);
    actions.push(a);

    let (p, a) = step(&ctx, p, e);
    match &a {
        Action::EnsureDirAndStat { dir, entry } => {
            assert_eq!(dir, &cache_root_path());
            assert_eq!(entry, &entry_path());
        }
        _ => panic!("expected the cache-entry check"),
    }
    actions.push(a);

    let (p, a) = step(&ctx, p, Event::Exists { yes: false });
    match &a {
        Action::Fetch { url } => assert_eq!(
            url,
            "https://api.github.com/repos/0xshariq/rust_package_installer_cli/releases/latest"
        ),
        _ => panic!("expected the metadata fetch"),
    }
    actions.push(a);

    let body = "{\"tarball_url\": \"https://releases.example/drop.tar.gz\"}".to_string();
    let (p, a) = step(
        &ctx,
        p,
        Event::FetchResult { reached: true, status_ok: true, body },
    );
    match &a {
        Action::Download { url } => assert_eq!(url, "https://releases.example/drop.tar.gz"),
        _ => panic!("expected the archive download"),
    }
    actions.push(a);

    let (tar_bytes, gz_bytes) = tiny_tarball("pkg-0abc");
    let (p, a) = step(
        &ctx,
        p,
        Event::BlobResult { reached: true, status_ok: true, data: gz_bytes },
    );
    match &a {
        Action::Unpack { tar, dest } => {
            assert_eq!(tar, &tar_bytes);
            assert_eq!(dest, &segs(&["cachebase", ".package-installer-cli", "temp"]));
        }
        _ => panic!("expected the unpack"),
    }
    actions.push(a);

    let (p, a) = step(
        &ctx,
        p,
        Event::UnpackResult { ok: true, top_dirs: vec!["pkg-0abc".to_string()] },
    );
    match &a {
        Action::CopyTree { from, to } => {
            assert_eq!(
                from,
                &segs(&["cachebase", ".package-installer-cli", "temp", "pkg-0abc"])
            );
            assert_eq!(to, &cache_root_path());
        }
        _ => panic!("expected the copy into the cache root"),
    }
    actions.push(a);

    let (p, a) = step(&ctx, p, Event::CopyResult { ok: true });
    assert!(matches!(a, Action::Stat2 { .. }));
    actions.push(a);

    let (p, a) = step(&ctx, p, Event::Exists2 { manifest: true, marker: false });
    assert!(matches!(a, Action::ProbeManagers { .. }));
    actions.push(a);

    let (p, a) = step(
        &ctx,
        p,
        Event::ManagerEvidence {
            pnpm_lock: false,
            pnpm_ok: false,
            yarn_lock: false,
            yarn_ok: false,
        },
    );
    match &a {
        Action::RunInstall { manager, dir } => {
            assert_eq!(manager.command_name(), "npm");
            assert_eq!(dir, &cache_root_path());
        }
        _ => panic!("expected the dependency install"),
    }
    actions.push(a);

    let (p, a) = step(&ctx, p, Event::InstallResult { spawned: true, success: true });
    match &a {
        Action::FinishProvision { temp, entry } => {
            assert_eq!(temp, &segs(&["cachebase", ".package-installer-cli", "temp"]));
            assert_eq!(entry, &entry_path());
        }
        _ => panic!("expected the provisioning cleanup"),
    }
    actions.push(a);

    let (p, a) = step(&ctx, p, Event::Exists { yes: true });
    let forwarded = segs(&["create", "my-app"]);
    match &a {
        Action::Run { candidate } => {
            assert_eq!(candidate.path, entry_path());
            assert_eq!(candidate.kind, ArtifactKind::Script);
            assert_eq!(candidate.origin, Origin::Cache);
            let plan = spawn_plan(&ctx.cfg, candidate, &forwarded);
            assert_eq!(plan.runtime.as_deref(), Some("node"));
            assert_eq!(plan.target, entry_path());
            assert_eq!(plan.args, forwarded);
        }
        _ => panic!("expected the delegation"),
    }
    actions.push(a);

    let (p, a) = step(&ctx, p, Event::RunResult { spawned: true, code: Some(7) });
    match a {
        Action::Exit { code, remediation } => {
            assert_eq!(code, 7);
            assert!(!remediation);
        }
        _ => panic!("expected the exit"),
    }
    assert!(matches!(p, Phase::Finished { code: 7 }));
    assert_eq!(count_fetches(&actions), 1);
    assert_eq!(count_downloads(&actions), 1);
}

#[test]
fn scenario_b_populated_cache_no_network() {
    let ctx = test_ctx();

    let mut delegated: Vec<Vec<String>> = Vec::new();
    for _ in 0..2 {
        let mut actions: Vec<Action> = Vec::new();
        let (p, a) = step(&ctx, Phase::Start, Event::Go);
        let e = all_false(&a);
        actions.push(a);
        let (p, a) = step(&ctx, p, e);
        actions.push(a);
        let (p, a) = step(&ctx, p, Event::Exists { yes: true });
        assert!(matches!(a, Action::Stat2 { .. }));
        actions.push(a);
        let (p, a) = step(&ctx, p, Event::Exists2 { manifest: true, marker: true });
        match &a {
            Action::Run { candidate } => {
                assert_eq!(candidate.kind, ArtifactKind::Script);
                assert_eq!(candidate.origin, Origin::Cache);
                delegated.push(candidate.path.clone());
            }
            _ => panic!("expected direct delegation from the cache"),
        }
        actions.push(a);
        let (_p, a) = step(&ctx, p, Event::RunResult { spawned: true, code: Some(0) });
        match a {
            Action::Exit { code, remediation } => {
                assert_eq!(code, 0);
                assert!(!remediation);
            }
            _ => panic!("expected the exit"),
        }
        assert_eq!(count_fetches(&actions), 0);
        assert_eq!(count_downloads(&actions), 0);
    }
    assert_eq!(delegated[0], entry_path());
    assert_eq!(delegated[0], delegated[1]);
}

#[test]
fn scenario_c_bundled_native_executable() {
    let ctx = test_ctx();

    let (p, a) = step(&ctx, Phase::Start, Event::Go);
    let e = all_false(&a);
    let (p, _a) = step(&ctx, p, e);
    let (p, _a) = step(&ctx, p, Event::Exists { yes: false });
    // Network unreachable: fall to the bundled tier.
    let (mut p, mut a) = step(
        &ctx,
        p,
        Event::FetchResult { reached: false, status_ok: false, body: String::new() },
    );
    // All four bundled script candidates are missing.
    let expected_scripts = [
        segs(&["launcherdir", "bundle", "pkg-ready", "index.js"]),
        segs(&["launcherdir", "bundle", "standalone", "index.js"]),
        segs(&["work", "bundle", "pkg-ready", "index.js"]),
        segs(&["work", "bundle", "standalone", "index.js"]),
    ];
    for expected in &expected_scripts {
        match &a {
            Action::Stat { path } => assert_eq!(path, expected),
            _ => panic!("expected a bundled-script check"),
        }
        let (p2, a2) = step(&ctx, p, Event::Exists { yes: false });
        p = p2;
        a = a2;
    }
    // First native candidate exists and is spawned directly.
    match &a {
        Action::Stat { path } => assert_eq!(
            path,
            &segs(&["launcherdir", "bundle", "executables", "pi-linux"])
        ),
        _ => panic!("expected the native-executable check"),
    }
    let (p, a) = step(&ctx, p, Event::Exists { yes: true });
    match &a {
        Action::Run { candidate } => {
            assert_eq!(candidate.kind, ArtifactKind::NativeExecutable);
            assert_eq!(candidate.origin, Origin::Bundled);
            assert_eq!(
                candidate.path,
                segs(&["launcherdir", "bundle", "executables", "pi-linux"])
            );
            let plan = spawn_plan(&ctx.cfg, candidate, &segs(&["doctor"]));
            assert_eq!(plan.runtime, None);
            assert_eq!(plan.args, segs(&["doctor"]));
        }
        _ => panic!("expected the native delegation"),
    }
    let (_p, a) = step(&ctx, p, Event::RunResult { spawned: true, code: Some(3) });
    match a {
        Action::Exit { code, remediation } => {
            assert_eq!(code, 3);
            assert!(!remediation);
        }
        _ => panic!("expected the exit"),
    }
}

#[test]
fn scenario_d_nothing_resolvable() {
    let ctx = test_ctx();

    let (p, a) = step(&ctx, Phase::Start, Event::Go);
    let e = all_false(&a);
    let (p, _a) = step(&ctx, p, e);
    let (mut p, mut a) = step(&ctx, p, Event::Exists { yes: false });
    assert!(matches!(a, Action::Fetch { .. }));
    // Metadata fetch fails; then every bundled candidate is missing.
    let (p2, a2) = step(
        &ctx,
        p,
        Event::FetchResult { reached: true, status_ok: false, body: String::new() },
    );
    p = p2;
    a = a2;
    for _ in 0..6 {
        assert!(matches!(a, Action::Stat { .. }));
        let (p2, a2) = step(&ctx, p, Event::Exists { yes: false });
        p = p2;
        a = a2;
    }
    match a {
        Action::Exit { code, remediation } => {
            assert_eq!(code, 1);
            assert!(remediation);
        }
        _ => panic!("expected the remediation exit"),
    }
    assert!(matches!(p, Phase::Finished { code: 1 }));
}

#[test]
fn spawn_failure_exits_one_with_remediation() {
    let ctx = test_ctx();
    let (p, a) = step(&ctx, Phase::Start, Event::Go);
    let e = all_false(&a);
    let (p, _a) = step(&ctx, p, e);
    let (p, _a) = step(&ctx, p, Event::Exists { yes: true });
    let (p, _a) = step(&ctx, p, Event::Exists2 { manifest: true, marker: true });
    let (p, a) = step(&ctx, p, Event::RunResult { spawned: false, code: None });
    match a {
        Action::Exit { code, remediation } => {
            assert_eq!(code, 1);
            assert!(remediation);
        }
        _ => panic!("expected the spawn-failure exit"),
    }
    assert!(matches!(p, Phase::Finished { code: 1 }));
}

#[test]
fn signal_termination_exits_one() {
    let ctx = test_ctx();
    let (p, a) = step(&ctx, Phase::Start, Event::Go);
    let e = all_false(&a);
    let (p, _a) = step(&ctx, p, e);
    let (p, _a) = step(&ctx, p, Event::Exists { yes: true });
    let (p, _a) = step(&ctx, p, Event::Exists2 { manifest: true, marker: true });
    let (_p, a) = step(&ctx, p, Event::RunResult { spawned: true, code: None });
    match a {
        Action::Exit { code, remediation } => {
            assert_eq!(code, 1);
            assert!(!remediation);
        }
        _ => panic!("expected the exit"),
    }
}

#[test]
fn failed_dependency_install_still_yields_the_cache_entry() {
    let ctx = test_ctx();
    let (p, a) = step(&ctx, Phase::Start, Event::Go);
    let e = all_false(&a);
    let (p, _a) = step(&ctx, p, e);
    let (p, _a) = step(&ctx, p, Event::Exists { yes: true });
    // Entry present, dependencies missing: the installer runs, fails, and
    // the entry point is still handed to the delegate.
    let (p, _a) = step(&ctx, p, Event::Exists2 { manifest: true, marker: false });
    let (p, a) = step(
        &ctx,
        p,
        Event::ManagerEvidence {
            pnpm_lock: true,
            pnpm_ok: true,
            yarn_lock: false,
            yarn_ok: false,
        },
    );
    match &a {
        Action::RunInstall { manager, .. } => assert_eq!(manager.command_name(), "pnpm"),
        _ => panic!("expected the dependency install"),
    }
    let (_p, a) = step(&ctx, p, Event::InstallResult { spawned: true, success: false });
    match &a {
        Action::Run { candidate } => assert_eq!(candidate.path, entry_path()),
        _ => panic!("expected delegation despite the failed install"),
    }
}

#[test]
fn malformed_metadata_falls_through() {
    let ctx = test_ctx();
    let (p, a) = step(&ctx, Phase::Start, Event::Go);
    let e = all_false(&a);
    let (p, _a) = step(&ctx, p, e);
    let (p, _a) = step(&ctx, p, Event::Exists { yes: false });
    // A reachable response without the tarball field is fatal to the
    // attempt: the machine falls to the bundled tier.
    let body = "{\"name\": \"a-release\"}".to_string();
    let (_p, a) = step(
        &ctx,
        p,
        Event::FetchResult { reached: true, status_ok: true, body },
    );
    match a {
        Action::Stat { path } => {
            assert_eq!(path, segs(&["launcherdir", "bundle", "pkg-ready", "index.js"]));
        }
        _ => panic!("expected fallthrough to the bundled tier"),
    }
}

#[test]
fn corrupt_archive_falls_through() {
    let ctx = test_ctx();
    let (p, a) = step(&ctx, Phase::Start, Event::Go);
    let e = all_false(&a);
    let (p, _a) = step(&ctx, p, e);
    let (p, _a) = step(&ctx, p, Event::Exists { yes: false });
    let body = "{\"tarball_url\": \"https://releases.example/drop.tar.gz\"}".to_string();
    let (p, _a) = step(
        &ctx,
        p,
        Event::FetchResult { reached: true, status_ok: true, body },
    );
    // Bytes that are no gzip stream are fatal to the attempt.
    let (_p, a) = step(
        &ctx,
        p,
        Event::BlobResult { reached: true, status_ok: true, data: vec![1, 2, 3, 4] },
    );
    match a {
        Action::Stat { path } => {
            assert_eq!(path, segs(&["launcherdir", "bundle", "pkg-ready", "index.js"]));
        }
        _ => panic!("expected fallthrough to the bundled tier"),
    }
}

#[test]
fn bundled_script_failure_falls_through_to_next() {
    let ctx = test_ctx();
    let (p, a) = step(&ctx, Phase::Start, Event::Go);
    let e = all_false(&a);
    let (p, _a) = step(&ctx, p, e);
    let (p, _a) = step(&ctx, p, Event::Exists { yes: false });
    let (p, _a) = step(
        &ctx,
        p,
        Event::FetchResult { reached: false, status_ok: false, body: String::new() },
    );
    // The first bundled script exists but exits non-zero: the machine
    // continues with the second candidate instead of aborting.
    let (p, a) = step(&ctx, p, Event::Exists { yes: true });
    match &a {
        Action::Run { candidate } => {
            assert_eq!(
                candidate.path,
                segs(&["launcherdir", "bundle", "pkg-ready", "index.js"])
            );
        }
        _ => panic!("expected the bundled-script run"),
    }
    let (_p, a) = step(&ctx, p, Event::RunResult { spawned: true, code: Some(2) });
    match a {
        Action::Stat { path } => {
            assert_eq!(path, segs(&["launcherdir", "bundle", "standalone", "index.js"]));
        }
        _ => panic!("expected the next bundled candidate"),
    }
}
