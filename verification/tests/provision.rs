use pyenv::machine::{Action, Event, Phase, Provisioner, ProvisionError};
use pyenv::plan::{sync_command, CommandLine, Platform, PyenvArgs};

fn sample_args() -> PyenvArgs {
    PyenvArgs {
        python_bin: "python3".to_string(),
        pyenv_folder: "/tmp/env".to_string(),
        initial_reqs: "base.txt".to_string(),
        reqs: vec!["a.txt".to_string(), "b.txt".to_string()],
    }
}

fn cmd(program: &str, args: &[&str]) -> CommandLine {
    CommandLine {
        program: program.to_string(),
        args: args.iter().map(|a| a.to_string()).collect(),
    }
}

#[test]
fn provisioned_folder_only_syncs() {
    let mut p = Provisioner::new(sample_args(), Platform::Posix);
    assert_eq!(
        p.initial_action(),
        Action::CheckSentinel("/tmp/env/bin/pip".to_string())
    );
    let a1 = p.step(Event::SentinelChecked(true));
    assert_eq!(
        a1,
        Action::RunFatal(cmd("/tmp/env/bin/pip-sync", &["a.txt", "b.txt"]))
    );
    let a2 = p.step(Event::CommandFinished(true));
    assert_eq!(a2, Action::Succeed);
    assert!(matches!(p.phase, Phase::Done));
}

#[test]
fn first_run_ordering_posix() {
    let mut p = Provisioner::new(sample_args(), Platform::Posix);
    let a1 = p.step(Event::SentinelChecked(false));
    assert_eq!(a1, Action::RunFatal(cmd("python3", &["-m", "venv", "/tmp/env"])));
    let a2 = p.step(Event::CommandFinished(true));
    assert_eq!(
        a2,
        Action::RunFatal(cmd("/tmp/env/bin/pip", &["install", "-r", "base.txt"]))
    );
    let a3 = p.step(Event::CommandFinished(true));
    assert_eq!(
        a3,
        Action::RunFatal(cmd("/tmp/env/bin/pip-sync", &["a.txt", "b.txt"]))
    );
    let a4 = p.step(Event::CommandFinished(true));
    assert_eq!(a4, Action::Succeed);
    assert!(matches!(p.phase, Phase::Done));
}

#[test]
fn first_run_ordering_windows_has_discarded_install() {
    let mut p = Provisioner::new(sample_args(), Platform::Windows);
    assert_eq!(
        p.initial_action(),
        Action::CheckSentinel("/tmp/env/scripts/pip".to_string())
    );
    let a1 = p.step(Event::SentinelChecked(false));
    assert_eq!(a1, Action::RunFatal(cmd("python3", &["-m", "venv", "/tmp/env"])));
    let a2 = p.step(Event::CommandFinished(true));
    assert_eq!(
        a2,
        Action::RunIgnored(cmd("/tmp/env/scripts/pip", &["install", "-r", "base.txt"]))
    );
    let a3 = p.step(Event::CommandFinished(true));
    assert_eq!(
        a3,
        Action::RunFatal(cmd("/tmp/env/scripts/pip", &["install", "-r", "base.txt"]))
    );
    let a4 = p.step(Event::CommandFinished(true));
    assert_eq!(
        a4,
        Action::RunFatal(cmd("/tmp/env/scripts/pip-sync", &["a.txt", "b.txt"]))
    );
    let a5 = p.step(Event::CommandFinished(true));
    assert_eq!(a5, Action::Succeed);
}

#[test]
fn workaround_failure_is_swallowed() {
    let mut p = Provisioner::new(sample_args(), Platform::Windows);
    let _ = p.step(Event::SentinelChecked(false));
    let a = p.step(Event::CommandFinished(true));
    assert!(matches!(a, Action::RunIgnored(_)));
    // the discarded install fails: the mandatory install must still follow
    let a = p.step(Event::CommandFinished(false));
    assert_eq!(
        a,
        Action::RunFatal(cmd("/tmp/env/scripts/pip", &["install", "-r", "base.txt"]))
    );
}

#[test]
fn creation_failure_is_fatal() {
    let mut p = Provisioner::new(sample_args(), Platform::Posix);
    let a1 = p.step(Event::SentinelChecked(false));
    assert!(matches!(a1, Action::RunFatal(_)));
    let a2 = p.step(Event::CommandFinished(false));
    assert_eq!(a2, Action::Abort(ProvisionError::CreationFailed));
    assert!(matches!(p.phase, Phase::Failed(ProvisionError::CreationFailed)));
}

#[test]
fn bootstrap_failure_is_fatal() {
    let mut p = Provisioner::new(sample_args(), Platform::Posix);
    let _ = p.step(Event::SentinelChecked(false));
    let _ = p.step(Event::CommandFinished(true));
    let a = p.step(Event::CommandFinished(false));
    assert_eq!(a, Action::Abort(ProvisionError::BootstrapFailed));
    assert!(matches!(p.phase, Phase::Failed(ProvisionError::BootstrapFailed)));
}

#[test]
fn sync_failure_is_fatal() {
    let mut p = Provisioner::new(sample_args(), Platform::Posix);
    let _ = p.step(Event::SentinelChecked(true));
    let a = p.step(Event::CommandFinished(false));
    assert_eq!(a, Action::Abort(ProvisionError::SyncFailed));
    assert!(matches!(p.phase, Phase::Failed(ProvisionError::SyncFailed)));
}

#[test]
fn sync_arguments_passed_through() {
    let args = sample_args();
    let c = sync_command(&args, Platform::Posix);
    assert_eq!(c.args, vec!["a.txt".to_string(), "b.txt".to_string()]);
}

#[test]
fn sync_with_no_manifests_has_no_arguments() {
    let mut args = sample_args();
    args.reqs = Vec::new();
    let c = sync_command(&args, Platform::Posix);
    assert_eq!(c.program, "/tmp/env/bin/pip-sync");
    assert!(c.args.is_empty());
}

#[test]
fn accepts_matches_phase() {
    let mut p = Provisioner::new(sample_args(), Platform::Posix);
    assert!(p.accepts(&Event::SentinelChecked(true)));
    assert!(!p.accepts(&Event::CommandFinished(true)));
    let _ = p.step(Event::SentinelChecked(true));
    assert!(p.accepts(&Event::CommandFinished(true)));
    assert!(!p.accepts(&Event::SentinelChecked(false)));
    let _ = p.step(Event::CommandFinished(true));
    assert!(!p.accepts(&Event::CommandFinished(true)));
    assert!(!p.accepts(&Event::SentinelChecked(true)));
}

#[test]
fn error_descriptions() {
    assert_eq!(
        ProvisionError::CreationFailed.describe(),
        "failed to create the environment"
    );
    assert_eq!(
        ProvisionError::BootstrapFailed.describe(),
        "failed to install the bootstrap requirements"
    );
    assert_eq!(
        ProvisionError::SyncFailed.describe(),
        "failed to sync the requirements"
    );
}
