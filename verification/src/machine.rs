//! When to run what: a state machine that decides, step by step, which
//! command to issue next from the outcome of the previous one.
//!
//! A driver performs each requested [`Action`] (probe the sentinel file, run
//! a command) and hands the outcome back as an [`Event`]; the machine never
//! touches the filesystem or spawns a process itself.

use vstd::prelude::*;
use crate::plan::{
    ArgsModel, CommandLine, Platform, PyenvArgs, bootstrap_command, creation_command,
    installer_path, needs_double_install_workaround, spec_bootstrap_command,
    spec_creation_command, spec_installer_path, spec_needs_workaround, spec_sync_command,
    sync_command,
};

verus! {

/// Why provisioning stopped. Each variant names the external command whose
/// failure it reports; the workaround install has no variant, since its
/// failure is discarded by design.
#[derive(Clone, Copy, Debug, PartialEq, Eq, Structural)]
pub enum ProvisionError {
    CreationFailed,
    BootstrapFailed,
    SyncFailed,
}

impl ProvisionError {
    /// A diagnostic for the failed step.
    pub fn describe(&self) -> (r: &'static str)
        ensures
            r@ == spec_describe(*self),
    {
        match self {
            ProvisionError::CreationFailed => "failed to create the environment",
            ProvisionError::BootstrapFailed => "failed to install the bootstrap requirements",
            ProvisionError::SyncFailed => "failed to sync the requirements",
        }
    }
}

/// The diagnostic each error carries.
pub open spec fn spec_describe(e: ProvisionError) -> Seq<char> {
    match e {
        ProvisionError::CreationFailed => "failed to create the environment"@,
        ProvisionError::BootstrapFailed => "failed to install the bootstrap requirements"@,
        ProvisionError::SyncFailed => "failed to sync the requirements"@,
    }
}

/// Where a run stands. The `Await` phases name the action whose outcome the
/// machine is waiting for; `Done` and `Failed` are terminal.
#[derive(Clone, Copy, Debug, PartialEq, Eq, Structural)]
pub enum Phase {
    AwaitSentinel,
    AwaitCreation,
    AwaitWorkaround,
    AwaitBootstrap,
    AwaitSync,
    Done,
    Failed(ProvisionError),
}

/// The outcome of the action the machine last requested: whether the
/// sentinel file was present, or whether a command finished successfully.
#[derive(Clone, Copy, Debug, PartialEq, Eq, Structural)]
pub enum Event {
    SentinelChecked(bool),
    CommandFinished(bool),
}

/// What the driver is asked to do next. For `RunIgnored` the command's
/// outcome is deliberately discarded: the driver reports the command merely
/// as finished, and the machine proceeds either way.
#[derive(Clone, Debug, PartialEq, Eq)]
pub enum Action {
    /// Check whether this file exists.
    CheckSentinel(String),
    /// Run this command; its failure aborts provisioning.
    RunFatal(CommandLine),
    /// Run this command; its outcome is discarded.
    RunIgnored(CommandLine),
    /// Provisioning finished successfully.
    Succeed,
    /// Provisioning failed at the named step.
    Abort(ProvisionError),
}

/// Mathematical model of an action.
pub enum ActionModel {
    CheckSentinel(Seq<char>),
    RunFatal(crate::plan::CommandModel),
    RunIgnored(crate::plan::CommandModel),
    Succeed,
    Abort(ProvisionError),
}

impl View for Action {
    type V = ActionModel;

    open spec fn view(&self) -> ActionModel {
        match self {
            Action::CheckSentinel(path) => ActionModel::CheckSentinel(path@),
            Action::RunFatal(cmd) => ActionModel::RunFatal(cmd@),
            Action::RunIgnored(cmd) => ActionModel::RunIgnored(cmd@),
            Action::Succeed => ActionModel::Succeed,
            Action::Abort(e) => ActionModel::Abort(*e),
        }
    }
}

/// Which events a phase can answer: the sentinel probe answers
/// `AwaitSentinel`, a finished command answers the four command phases, and
/// the terminal phases answer nothing.
pub open spec fn spec_event_fits(phase: Phase, event: Event) -> bool {
    match (phase, event) {
        (Phase::AwaitSentinel, Event::SentinelChecked(_)) => true,
        (Phase::AwaitCreation, Event::CommandFinished(_)) => true,
        (Phase::AwaitWorkaround, Event::CommandFinished(_)) => true,
        (Phase::AwaitBootstrap, Event::CommandFinished(_)) => true,
        (Phase::AwaitSync, Event::CommandFinished(_)) => true,
        _ => false,
    }
}

/// The transition relation, as a function: from the current phase and the
/// event that answers it, the next phase and the action requested next.
///
/// - A present sentinel skips creation and bootstrap entirely: only the sync
///   command is ever issued.
/// - A failed creation, bootstrap or sync aborts with its error; nothing
///   further is issued.
/// - On a platform that needs the workaround, the bootstrap command is first
///   issued with its outcome discarded, then issued again fatally.
pub open spec fn spec_step(a: ArgsModel, p: Platform, phase: Phase, event: Event) -> (
    Phase,
    ActionModel,
) {
    match (phase, event) {
        (Phase::AwaitSentinel, Event::SentinelChecked(present)) => if present {
            (Phase::AwaitSync, ActionModel::RunFatal(spec_sync_command(a, p)))
        } else {
            (Phase::AwaitCreation, ActionModel::RunFatal(spec_creation_command(a)))
        },
        (Phase::AwaitCreation, Event::CommandFinished(ok)) => if !ok {
            (
                Phase::Failed(ProvisionError::CreationFailed),
                ActionModel::Abort(ProvisionError::CreationFailed),
            )
        } else if spec_needs_workaround(p) {
            (Phase::AwaitWorkaround, ActionModel::RunIgnored(spec_bootstrap_command(a, p)))
        } else {
            (Phase::AwaitBootstrap, ActionModel::RunFatal(spec_bootstrap_command(a, p)))
        },
        (Phase::AwaitWorkaround, Event::CommandFinished(_)) => (
            Phase::AwaitBootstrap,
            ActionModel::RunFatal(spec_bootstrap_command(a, p)),
        ),
        (Phase::AwaitBootstrap, Event::CommandFinished(ok)) => if ok {
            (Phase::AwaitSync, ActionModel::RunFatal(spec_sync_command(a, p)))
        } else {
            (
                Phase::Failed(ProvisionError::BootstrapFailed),
                ActionModel::Abort(ProvisionError::BootstrapFailed),
            )
        },
        (Phase::AwaitSync, Event::CommandFinished(ok)) => if ok {
            (Phase::Done, ActionModel::Succeed)
        } else {
            (
                Phase::Failed(ProvisionError::SyncFailed),
                ActionModel::Abort(ProvisionError::SyncFailed),
            )
        },
        _ => arbitrary(),
    }
}

/// A provisioning run in progress: the request, the platform it runs on, and
/// where the run stands.
pub struct Provisioner {
    pub args: PyenvArgs,
    pub platform: Platform,
    pub phase: Phase,
}

impl Provisioner {
    /// Starts a run: the machine first waits for the sentinel probe.
    pub fn new(args: PyenvArgs, platform: Platform) -> (s: Self)
        ensures
            s.args == args,
            s.platform == platform,
            s.phase == Phase::AwaitSentinel,
    {
        Provisioner { args, platform, phase: Phase::AwaitSentinel }
    }

    /// The first action of every run: probe the installer path, whose
    /// presence on disk is the sole signal that the environment was already
    /// bootstrapped.
    pub fn initial_action(&self) -> (a: Action)
        ensures
            a@ == ActionModel::CheckSentinel(
                spec_installer_path(self.args@.pyenv_folder, self.platform),
            ),
    {
        Action::CheckSentinel(installer_path(self.args.pyenv_folder.as_str(), self.platform))
    }

    /// Whether the machine can answer this event in its current phase.
    pub fn accepts(&self, event: &Event) -> (r: bool)
        ensures
            r == spec_event_fits(self.phase, *event),
    {
        match (self.phase, event) {
            (Phase::AwaitSentinel, Event::SentinelChecked(_)) => true,
            (Phase::AwaitCreation, Event::CommandFinished(_)) => true,
            (Phase::AwaitWorkaround, Event::CommandFinished(_)) => true,
            (Phase::AwaitBootstrap, Event::CommandFinished(_)) => true,
            (Phase::AwaitSync, Event::CommandFinished(_)) => true,
            _ => false,
        }
    }

    /// Answers the pending action's outcome and returns the next action,
    /// exactly as [`spec_step`] prescribes. The request and the platform
    /// never change.
    pub fn step(&mut self, event: Event) -> (action: Action)
        requires
            spec_event_fits(old(self).phase, event),
        ensures
            final(self).args == old(self).args,
            final(self).platform == old(self).platform,
            final(self).phase == spec_step(
                old(self).args@,
                old(self).platform,
                old(self).phase,
                event,
            ).0,
            action@ == spec_step(old(self).args@, old(self).platform, old(self).phase, event).1,
    {
        match (self.phase, event) {
            (Phase::AwaitSentinel, Event::SentinelChecked(present)) => {
                if present {
                    self.phase = Phase::AwaitSync;
                    Action::RunFatal(sync_command(&self.args, self.platform))
                } else {
                    self.phase = Phase::AwaitCreation;
                    Action::RunFatal(creation_command(&self.args))
                }
            },
            (Phase::AwaitCreation, Event::CommandFinished(ok)) => {
                if !ok {
                    self.phase = Phase::Failed(ProvisionError::CreationFailed);
                    Action::Abort(ProvisionError::CreationFailed)
                } else if needs_double_install_workaround(self.platform) {
                    self.phase = Phase::AwaitWorkaround;
                    Action::RunIgnored(bootstrap_command(&self.args, self.platform))
                } else {
                    self.phase = Phase::AwaitBootstrap;
                    Action::RunFatal(bootstrap_command(&self.args, self.platform))
                }
            },
            (Phase::AwaitWorkaround, Event::CommandFinished(_)) => {
                self.phase = Phase::AwaitBootstrap;
                Action::RunFatal(bootstrap_command(&self.args, self.platform))
            },
            (Phase::AwaitBootstrap, Event::CommandFinished(ok)) => {
                if ok {
                    self.phase = Phase::AwaitSync;
                    Action::RunFatal(sync_command(&self.args, self.platform))
                } else {
                    self.phase = Phase::Failed(ProvisionError::BootstrapFailed);
                    Action::Abort(ProvisionError::BootstrapFailed)
                }
            },
            (Phase::AwaitSync, Event::CommandFinished(ok)) => {
                if ok {
                    self.phase = Phase::Done;
                    Action::Succeed
                } else {
                    self.phase = Phase::Failed(ProvisionError::SyncFailed);
                    Action::Abort(ProvisionError::SyncFailed)
                }
            },
            _ => {
                proof {
                    assert(false);
                }
                Action::Succeed
            },
        }
    }
}

} // verus!
