use pi_launcher::installer::{install_gate, remediation_commands, select_manager, Manager};

#[test]
fn gate_runs_iff_manifest_present_and_marker_absent() {
    assert!(install_gate(true, false));
    assert!(!install_gate(true, true));
    assert!(!install_gate(false, false));
    assert!(!install_gate(false, true));
}

#[test]
fn pnpm_wins_on_its_lockfile_when_invocable() {
    assert_eq!(select_manager(true, true, true, true), Manager::Pnpm);
}

#[test]
fn pnpm_lockfile_without_binary_falls_through() {
    assert_eq!(select_manager(true, false, true, true), Manager::Yarn);
}

#[test]
fn yarn_wins_on_its_lockfile_when_pnpm_has_none() {
    assert_eq!(select_manager(false, true, true, true), Manager::Yarn);
}

#[test]
fn npm_is_the_default_without_lockfile_evidence() {
    assert_eq!(select_manager(false, false, false, false), Manager::Npm);
    assert_eq!(select_manager(false, true, false, true), Manager::Npm);
}

#[test]
fn yarn_lockfile_without_binary_defaults_to_npm() {
    assert_eq!(select_manager(false, false, true, false), Manager::Npm);
}

#[test]
fn install_invocation_is_production_only_and_silent() {
    let args = Manager::Npm.install_args();
    assert_eq!(args, vec!["install", "--production", "--silent"]);
    assert_eq!(Manager::Yarn.install_args(), args);
    assert_eq!(Manager::Pnpm.install_args(), args);
}

#[test]
fn command_names() {
    assert_eq!(Manager::Pnpm.command_name(), "pnpm");
    assert_eq!(Manager::Yarn.command_name(), "yarn");
    assert_eq!(Manager::Npm.command_name(), "npm");
}

#[test]
fn manual_commands_name_the_published_package() {
    assert_eq!(
        Manager::Npm.local_install_command(),
        "npm install @0xshariq/package-installer"
    );
    assert_eq!(
        Manager::Yarn.local_install_command(),
        "yarn add @0xshariq/package-installer"
    );
    assert_eq!(Manager::Npm.cache_install_command(), "npm install --production");
}

#[test]
fn remediation_lists_one_command_per_available_manager() {
    let cmds = remediation_commands(true, false, true);
    assert_eq!(
        cmds,
        vec![
            "npm install @0xshariq/package-installer".to_string(),
            "pnpm add @0xshariq/package-installer".to_string(),
        ]
    );
    assert!(remediation_commands(false, false, false).is_empty());
}
