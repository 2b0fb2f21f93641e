use pi_launcher::artifact::{ArtifactKind, Candidate, Origin};
use pi_launcher::config::Config;
use pi_launcher::delegate::{exit_code, spawn_plan};

fn segs(parts: &[&str]) -> Vec<String> {
    parts.iter().map(|s| s.to_string()).collect()
}

#[test]
fn completed_child_codes_pass_through_unchanged() {
    for c in [0, 1, 7, 100, 255] {
        assert_eq!(exit_code(true, Some(c)), c);
    }
}

#[test]
fn signal_termination_reports_one() {
    assert_eq!(exit_code(true, None), 1);
}

#[test]
fn spawn_failure_reports_one() {
    assert_eq!(exit_code(false, None), 1);
    assert_eq!(exit_code(false, Some(0)), 1);
}

#[test]
fn script_plan_uses_the_runtime() {
    let cfg = Config::standard();
    let cand = Candidate {
        kind: ArtifactKind::Script,
        path: segs(&["cache", "dist", "index.js"]),
        origin: Origin::Cache,
    };
    let fwd = segs(&["create", "my-app"]);
    let plan = spawn_plan(&cfg, &cand, &fwd);
    assert_eq!(plan.runtime.as_deref(), Some("node"));
    assert_eq!(plan.target, segs(&["cache", "dist", "index.js"]));
    assert_eq!(plan.args, fwd);
}

#[test]
fn native_plan_runs_the_artifact_directly() {
    let cfg = Config::standard();
    let cand = Candidate {
        kind: ArtifactKind::NativeExecutable,
        path: segs(&["bundle", "executables", "pi-linux"]),
        origin: Origin::Bundled,
    };
    let fwd = segs(&[]);
    let plan = spawn_plan(&cfg, &cand, &fwd);
    assert_eq!(plan.runtime, None);
    assert_eq!(plan.target, segs(&["bundle", "executables", "pi-linux"]));
    assert!(plan.args.is_empty());
}
