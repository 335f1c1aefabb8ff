//! Whole-run guarantees of the provisioning machine.
//!
//! [`spec_run`] folds [`spec_step`] over a complete run, recording every
//! action the machine requests; the proof functions here pin down the runs
//! the machine can produce: a provisioned folder is only synced, a first run
//! issues its commands in a fixed order, a workaround failure changes
//! nothing, and a fatal failure stops the run at once.

use vstd::prelude::*;
use crate::plan::{ArgsModel, Platform, spec_bootstrap_command, spec_creation_command,
    spec_needs_workaround, spec_sync_command};
use crate::machine::{ActionModel, Event, Phase, ProvisionError, spec_event_fits, spec_step};

verus! {

/// How far a phase still has to go; every transition on a fitting event
/// strictly decreases it.
pub open spec fn phase_rank(phase: Phase) -> nat {
    match phase {
        Phase::AwaitSentinel => 5,
        Phase::AwaitCreation => 4,
        Phase::AwaitWorkaround => 3,
        Phase::AwaitBootstrap => 2,
        Phase::AwaitSync => 1,
        Phase::Done => 0,
        Phase::Failed(_) => 0,
    }
}

/// The event a driver hands back in each phase, given whether the sentinel
/// file was present and how each command came out.
pub open spec fn spec_event_for(
    phase: Phase,
    sentinel_present: bool,
    creation_ok: bool,
    workaround_ok: bool,
    bootstrap_ok: bool,
    sync_ok: bool,
) -> Event {
    match phase {
        Phase::AwaitSentinel => Event::SentinelChecked(sentinel_present),
        Phase::AwaitCreation => Event::CommandFinished(creation_ok),
        Phase::AwaitWorkaround => Event::CommandFinished(workaround_ok),
        Phase::AwaitBootstrap => Event::CommandFinished(bootstrap_ok),
        Phase::AwaitSync => Event::CommandFinished(sync_ok),
        _ => arbitrary(),
    }
}

/// The rest of a run from `phase`: every action the machine requests, in
/// order, and the terminal phase it ends in.
pub open spec fn spec_run_from(
    a: ArgsModel,
    p: Platform,
    phase: Phase,
    sentinel_present: bool,
    creation_ok: bool,
    workaround_ok: bool,
    bootstrap_ok: bool,
    sync_ok: bool,
) -> (Seq<ActionModel>, Phase)
    decreases phase_rank(phase),
{
    if phase is Done || phase is Failed {
        (Seq::empty(), phase)
    } else {
        let event = spec_event_for(
            phase,
            sentinel_present,
            creation_ok,
            workaround_ok,
            bootstrap_ok,
            sync_ok,
        );
        let next = spec_step(a, p, phase, event);
        if phase_rank(next.0) < phase_rank(phase) {
            let rest = spec_run_from(
                a,
                p,
                next.0,
                sentinel_present,
                creation_ok,
                workaround_ok,
                bootstrap_ok,
                sync_ok,
            );
            (seq![next.1] + rest.0, rest.1)
        } else {
            (Seq::empty(), phase)
        }
    }
}

/// A complete run, from the sentinel probe to a terminal phase.
pub open spec fn spec_run(
    a: ArgsModel,
    p: Platform,
    sentinel_present: bool,
    creation_ok: bool,
    workaround_ok: bool,
    bootstrap_ok: bool,
    sync_ok: bool,
) -> (Seq<ActionModel>, Phase) {
    spec_run_from(
        a,
        p,
        Phase::AwaitSentinel,
        sentinel_present,
        creation_ok,
        workaround_ok,
        bootstrap_ok,
        sync_ok,
    )
}

/// On an already-provisioned folder the run issues the sync command and
/// nothing else: the creation and bootstrap commands never appear, whatever
/// the command outcomes are.
pub proof fn lemma_provisioned_folder_only_syncs(
    a: ArgsModel,
    p: Platform,
    creation_ok: bool,
    workaround_ok: bool,
    bootstrap_ok: bool,
    sync_ok: bool,
)
    ensures
        ({
            let r = spec_run(a, p, true, creation_ok, workaround_ok, bootstrap_ok, sync_ok);
            &&& sync_ok ==> r == (
                seq![
                    ActionModel::RunFatal(spec_sync_command(a, p)),
                    ActionModel::Succeed,
                ],
                Phase::Done,
            )
            &&& !sync_ok ==> r == (
                seq![
                    ActionModel::RunFatal(spec_sync_command(a, p)),
                    ActionModel::Abort(ProvisionError::SyncFailed),
                ],
                Phase::Failed(ProvisionError::SyncFailed),
            )
        }),
{
    reveal_with_fuel(spec_run_from, 4);
    let r = spec_run(a, p, true, creation_ok, workaround_ok, bootstrap_ok, sync_ok);
    if sync_ok {
        assert(r.0 =~= seq![
            ActionModel::RunFatal(spec_sync_command(a, p)),
            ActionModel::Succeed,
        ]);
    } else {
        assert(r.0 =~= seq![
            ActionModel::RunFatal(spec_sync_command(a, p)),
            ActionModel::Abort(ProvisionError::SyncFailed),
        ]);
    }
}

/// On an unprovisioned folder where every command succeeds, the run issues
/// creation, then (on a platform that needs it) the discarded install, then
/// the bootstrap install, then the sync, in exactly that order, and ends
/// successfully: the sync is never skipped.
pub proof fn lemma_first_run_ordering(a: ArgsModel, p: Platform, workaround_ok: bool)
    ensures
        spec_needs_workaround(p) ==> spec_run(a, p, false, true, workaround_ok, true, true) == (
            seq![
                ActionModel::RunFatal(spec_creation_command(a)),
                ActionModel::RunIgnored(spec_bootstrap_command(a, p)),
                ActionModel::RunFatal(spec_bootstrap_command(a, p)),
                ActionModel::RunFatal(spec_sync_command(a, p)),
                ActionModel::Succeed,
            ],
            Phase::Done,
        ),
        !spec_needs_workaround(p) ==> spec_run(a, p, false, true, workaround_ok, true, true) == (
            seq![
                ActionModel::RunFatal(spec_creation_command(a)),
                ActionModel::RunFatal(spec_bootstrap_command(a, p)),
                ActionModel::RunFatal(spec_sync_command(a, p)),
                ActionModel::Succeed,
            ],
            Phase::Done,
        ),
{
    reveal_with_fuel(spec_run_from, 7);
    let r = spec_run(a, p, false, true, workaround_ok, true, true);
    if spec_needs_workaround(p) {
        assert(r.0 =~= seq![
            ActionModel::RunFatal(spec_creation_command(a)),
            ActionModel::RunIgnored(spec_bootstrap_command(a, p)),
            ActionModel::RunFatal(spec_bootstrap_command(a, p)),
            ActionModel::RunFatal(spec_sync_command(a, p)),
            ActionModel::Succeed,
        ]);
    } else {
        assert(r.0 =~= seq![
            ActionModel::RunFatal(spec_creation_command(a)),
            ActionModel::RunFatal(spec_bootstrap_command(a, p)),
            ActionModel::RunFatal(spec_sync_command(a, p)),
            ActionModel::Succeed,
        ]);
    }
}

/// The outcome of the workaround install is swallowed: a run in which it
/// fails is, action for action, the run in which it succeeds — in
/// particular, the mandatory bootstrap install still follows it.
pub proof fn lemma_workaround_failure_is_swallowed(
    a: ArgsModel,
    p: Platform,
    sentinel_present: bool,
    creation_ok: bool,
    bootstrap_ok: bool,
    sync_ok: bool,
)
    ensures
        spec_run(a, p, sentinel_present, creation_ok, false, bootstrap_ok, sync_ok) == spec_run(
            a,
            p,
            sentinel_present,
            creation_ok,
            true,
            bootstrap_ok,
            sync_ok,
        ),
{
    reveal_with_fuel(spec_run_from, 7);
    let r0 = spec_run(a, p, sentinel_present, creation_ok, false, bootstrap_ok, sync_ok);
    let r1 = spec_run(a, p, sentinel_present, creation_ok, true, bootstrap_ok, sync_ok);
    assert(r0.0 =~= r1.0);
}

/// A failed creation is fatal: the run stops with `CreationFailed`, and
/// neither the bootstrap install nor the sync is ever issued.
pub proof fn lemma_creation_failure_is_fatal(
    a: ArgsModel,
    p: Platform,
    workaround_ok: bool,
    bootstrap_ok: bool,
    sync_ok: bool,
)
    ensures
        spec_run(a, p, false, false, workaround_ok, bootstrap_ok, sync_ok) == (
            seq![
                ActionModel::RunFatal(spec_creation_command(a)),
                ActionModel::Abort(ProvisionError::CreationFailed),
            ],
            Phase::Failed(ProvisionError::CreationFailed),
        ),
{
    reveal_with_fuel(spec_run_from, 4);
    let r = spec_run(a, p, false, false, workaround_ok, bootstrap_ok, sync_ok);
    assert(r.0 =~= seq![
        ActionModel::RunFatal(spec_creation_command(a)),
        ActionModel::Abort(ProvisionError::CreationFailed),
    ]);
}

/// A failed mandatory bootstrap install is fatal: the run stops with
/// `BootstrapFailed`, and the sync is never issued.
pub proof fn lemma_bootstrap_failure_is_fatal(
    a: ArgsModel,
    p: Platform,
    workaround_ok: bool,
    sync_ok: bool,
)
    ensures
        spec_needs_workaround(p) ==> spec_run(a, p, false, true, workaround_ok, false, sync_ok)
            == (
            seq![
                ActionModel::RunFatal(spec_creation_command(a)),
                ActionModel::RunIgnored(spec_bootstrap_command(a, p)),
                ActionModel::RunFatal(spec_bootstrap_command(a, p)),
                ActionModel::Abort(ProvisionError::BootstrapFailed),
            ],
            Phase::Failed(ProvisionError::BootstrapFailed),
        ),
        !spec_needs_workaround(p) ==> spec_run(a, p, false, true, workaround_ok, false, sync_ok)
            == (
            seq![
                ActionModel::RunFatal(spec_creation_command(a)),
                ActionModel::RunFatal(spec_bootstrap_command(a, p)),
                ActionModel::Abort(ProvisionError::BootstrapFailed),
            ],
            Phase::Failed(ProvisionError::BootstrapFailed),
        ),
{
    reveal_with_fuel(spec_run_from, 7);
    let r = spec_run(a, p, false, true, workaround_ok, false, sync_ok);
    if spec_needs_workaround(p) {
        assert(r.0 =~= seq![
            ActionModel::RunFatal(spec_creation_command(a)),
            ActionModel::RunIgnored(spec_bootstrap_command(a, p)),
            ActionModel::RunFatal(spec_bootstrap_command(a, p)),
            ActionModel::Abort(ProvisionError::BootstrapFailed),
        ]);
    } else {
        assert(r.0 =~= seq![
            ActionModel::RunFatal(spec_creation_command(a)),
            ActionModel::RunFatal(spec_bootstrap_command(a, p)),
            ActionModel::Abort(ProvisionError::BootstrapFailed),
        ]);
    }
}

/// The sync command carries exactly the caller-supplied manifests, in their
/// given order, with no argument added or dropped.
pub proof fn lemma_sync_arguments_passed_through(a: ArgsModel, p: Platform)
    ensures
        spec_sync_command(a, p).args == a.reqs,
{
}

/// Every transition on a fitting event makes progress toward a terminal
/// phase, so a run always ends.
pub proof fn lemma_steps_make_progress(a: ArgsModel, p: Platform, phase: Phase, event: Event)
    requires
        spec_event_fits(phase, event),
    ensures
        phase_rank(spec_step(a, p, phase, event).0) < phase_rank(phase),
{
}

} // verus!
