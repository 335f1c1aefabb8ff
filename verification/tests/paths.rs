use pyenv::plan::{
    creation_command, bootstrap_command, installer_path, join_path,
    needs_double_install_workaround, syncer_path, tooling_subfolder_name, Platform, PyenvArgs,
};

#[test]
fn join_appends_with_separator() {
    assert_eq!(join_path("/tmp/env", "bin"), "/tmp/env/bin");
    assert_eq!(join_path("/tmp/env/bin", "pip"), "/tmp/env/bin/pip");
}

#[test]
fn tooling_subfolder_is_platform_specific() {
    assert_eq!(tooling_subfolder_name(Platform::Posix), "bin");
    assert_eq!(tooling_subfolder_name(Platform::Windows), "scripts");
}

#[test]
fn workaround_only_on_windows() {
    assert!(!needs_double_install_workaround(Platform::Posix));
    assert!(needs_double_install_workaround(Platform::Windows));
}

#[test]
fn installer_and_syncer_paths() {
    assert_eq!(installer_path("/tmp/env", Platform::Posix), "/tmp/env/bin/pip");
    assert_eq!(installer_path("/tmp/env", Platform::Windows), "/tmp/env/scripts/pip");
    assert_eq!(syncer_path("/tmp/env", Platform::Posix), "/tmp/env/bin/pip-sync");
    assert_eq!(syncer_path("/tmp/env", Platform::Windows), "/tmp/env/scripts/pip-sync");
}

#[test]
fn creation_command_invokes_the_interpreter() {
    let args = PyenvArgs {
        python_bin: "python3".to_string(),
        pyenv_folder: "/tmp/env".to_string(),
        initial_reqs: "base.txt".to_string(),
        reqs: vec![],
    };
    let c = creation_command(&args);
    assert_eq!(c.program, "python3");
    assert_eq!(c.args, vec!["-m".to_string(), "venv".to_string(), "/tmp/env".to_string()]);
}

#[test]
fn bootstrap_command_installs_the_initial_manifest() {
    let args = PyenvArgs {
        python_bin: "python3".to_string(),
        pyenv_folder: "/tmp/env".to_string(),
        initial_reqs: "base.txt".to_string(),
        reqs: vec![],
    };
    let c = bootstrap_command(&args, Platform::Posix);
    assert_eq!(c.program, "/tmp/env/bin/pip");
    assert_eq!(
        c.args,
        vec!["install".to_string(), "-r".to_string(), "base.txt".to_string()]
    );
}
