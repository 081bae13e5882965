//! The deployment workflow as a state machine: build, verify artifacts,
//! back up, deploy, sync. A failed build, backup or deployment stops the
//! workflow, after a rollback when rollback is enabled and a target
//! directory is set; a failed sync does not.
//!
//! The caller performs each action and reports whether it succeeded.
use vstd::prelude::*;
use crate::config::Config;

verus! {

/// A step whose failure fails the workflow.
#[derive(Debug, Clone, Copy, PartialEq, Eq, Structural)]
pub enum FailedStep {
    Build,
    VerifyArtifacts,
    Backup,
    Deploy,
}

/// Where the workflow is: the step being performed, or the end.
#[derive(Debug, Clone, Copy, PartialEq, Eq, Structural)]
pub enum RunStage {
    Building,
    VerifyingArtifacts,
    BackingUp,
    Deploying,
    Syncing,
    /// Rolling back after the given step failed.
    RollingBack(FailedStep),
    /// Done: succeeded, or failed at the given step.
    Finished(Option<FailedStep>),
}

/// What the caller does next.
#[derive(Debug, Clone, Copy, PartialEq, Eq, Structural)]
pub enum RunAction {
    Build,
    VerifyArtifacts,
    Backup,
    Deploy,
    Sync,
    Rollback,
    /// Report success.
    Succeed,
    /// Report the failure of the given step.
    Fail(FailedStep),
}

/// What the configuration says about the workflow.
pub struct RunSettings {
    pub has_artifacts: bool,
    pub has_target_dir: bool,
    pub rollback_enabled: bool,
    pub sync_enabled: bool,
}

/// A rollback follows a failure when rollback is enabled and a target
/// directory is set.
pub open spec fn rolls_back(s: RunSettings) -> bool {
    s.rollback_enabled && s.has_target_dir
}

/// The step after the artifacts are known to be in place: a backup when
/// rollback is enabled and there are artifacts, else the deployment.
pub open spec fn after_artifacts(s: RunSettings) -> (RunStage, RunAction) {
    if s.rollback_enabled && s.has_artifacts {
        (RunStage::BackingUp, RunAction::Backup)
    } else {
        (RunStage::Deploying, RunAction::Deploy)
    }
}

/// The end after a failed step: a rollback first when it applies.
pub open spec fn after_failure(s: RunSettings, step: FailedStep) -> (RunStage, RunAction) {
    if rolls_back(s) {
        (RunStage::RollingBack(step), RunAction::Rollback)
    } else {
        (RunStage::Finished(Some(step)), RunAction::Fail(step))
    }
}

/// The next stage and action, from the stage whose action was just
/// performed and whether it succeeded. A failed build, backup or deployment
/// fails the workflow, after a rollback when one applies; a failed artifact
/// check fails it without rollback; a failed sync does not stop it.
pub open spec fn run_next_spec(s: RunSettings, stage: RunStage, succeeded: bool) -> (RunStage, RunAction) {
    match stage {
        RunStage::Building => if succeeded {
            if s.has_artifacts {
                (RunStage::VerifyingArtifacts, RunAction::VerifyArtifacts)
            } else {
                after_artifacts(s)
            }
        } else {
            after_failure(s, FailedStep::Build)
        },
        RunStage::VerifyingArtifacts => if succeeded {
            after_artifacts(s)
        } else {
            (RunStage::Finished(Some(FailedStep::VerifyArtifacts)), RunAction::Fail(FailedStep::VerifyArtifacts))
        },
        RunStage::BackingUp => if succeeded {
            (RunStage::Deploying, RunAction::Deploy)
        } else {
            after_failure(s, FailedStep::Backup)
        },
        RunStage::Deploying => if succeeded {
            if s.sync_enabled {
                (RunStage::Syncing, RunAction::Sync)
            } else {
                (RunStage::Finished(None), RunAction::Succeed)
            }
        } else {
            after_failure(s, FailedStep::Deploy)
        },
        RunStage::Syncing => (RunStage::Finished(None), RunAction::Succeed),
        RunStage::RollingBack(step) => (RunStage::Finished(Some(step)), RunAction::Fail(step)),
        RunStage::Finished(outcome) => (
            RunStage::Finished(outcome),
            match outcome {
                None => RunAction::Succeed,
                Some(step) => RunAction::Fail(step),
            },
        ),
    }
}

impl RunSettings {
    /// What a configuration says about the workflow.
    pub fn from_config(config: &Config) -> (r: Self)
        ensures
            r.has_artifacts == (config.deploy.artifacts@.len() > 0),
            r.has_target_dir == (config.deploy.target_dir@.len() > 0),
            r.rollback_enabled == config.rollback.enabled,
            r.sync_enabled == config.sync.enabled,
    {
        RunSettings {
            has_artifacts: config.deploy.artifacts.len() > 0,
            has_target_dir: !config.deploy.target_dir.as_str().is_empty(),
            rollback_enabled: config.rollback.enabled,
            sync_enabled: config.sync.enabled,
        }
    }
}

/// The first stage and action of the workflow: the build.
pub fn run_start() -> (r: (RunStage, RunAction))
    ensures
        r == (RunStage::Building, RunAction::Build),
{
    (RunStage::Building, RunAction::Build)
}

/// The next stage and action of the workflow.
pub fn run_next(s: &RunSettings, stage: RunStage, succeeded: bool) -> (r: (RunStage, RunAction))
    ensures
        r == run_next_spec(*s, stage, succeeded),
{
    let roll = s.rollback_enabled && s.has_target_dir;
    let after_art = if s.rollback_enabled && s.has_artifacts {
        (RunStage::BackingUp, RunAction::Backup)
    } else {
        (RunStage::Deploying, RunAction::Deploy)
    };
    match stage {
        RunStage::Building => {
            if succeeded {
                if s.has_artifacts {
                    (RunStage::VerifyingArtifacts, RunAction::VerifyArtifacts)
                } else {
                    after_art
                }
            } else if roll {
                (RunStage::RollingBack(FailedStep::Build), RunAction::Rollback)
            } else {
                (RunStage::Finished(Some(FailedStep::Build)), RunAction::Fail(FailedStep::Build))
            }
        },
        RunStage::VerifyingArtifacts => {
            if succeeded {
                after_art
            } else {
                (RunStage::Finished(Some(FailedStep::VerifyArtifacts)), RunAction::Fail(FailedStep::VerifyArtifacts))
            }
        },
        RunStage::BackingUp => {
            if succeeded {
                (RunStage::Deploying, RunAction::Deploy)
            } else if roll {
                (RunStage::RollingBack(FailedStep::Backup), RunAction::Rollback)
            } else {
                (RunStage::Finished(Some(FailedStep::Backup)), RunAction::Fail(FailedStep::Backup))
            }
        },
        RunStage::Deploying => {
            if succeeded {
                if s.sync_enabled {
                    (RunStage::Syncing, RunAction::Sync)
                } else {
                    (RunStage::Finished(None), RunAction::Succeed)
                }
            } else if roll {
                (RunStage::RollingBack(FailedStep::Deploy), RunAction::Rollback)
            } else {
                (RunStage::Finished(Some(FailedStep::Deploy)), RunAction::Fail(FailedStep::Deploy))
            }
        },
        RunStage::Syncing => (RunStage::Finished(None), RunAction::Succeed),
        RunStage::RollingBack(step) => (RunStage::Finished(Some(step)), RunAction::Fail(step)),
        RunStage::Finished(outcome) => (
            RunStage::Finished(outcome),
            match outcome {
                None => RunAction::Succeed,
                Some(step) => RunAction::Fail(step),
            },
        ),
    }
}

/// How many more steps a stage can take before the end.
pub open spec fn stages_left(stage: RunStage) -> nat {
    match stage {
        RunStage::Building => 6,
        RunStage::VerifyingArtifacts => 5,
        RunStage::BackingUp => 4,
        RunStage::Deploying => 3,
        RunStage::Syncing => 1,
        RunStage::RollingBack(_) => 1,
        RunStage::Finished(_) => 0,
    }
}

/// The workflow always ends: every step before the end moves strictly
/// closer to it.
pub proof fn lemma_run_terminates(s: RunSettings, stage: RunStage, succeeded: bool)
    requires
        !(stage is Finished),
    ensures
        stages_left(run_next_spec(s, stage, succeeded).0) < stages_left(stage),
{
}

/// A sync is only requested right after a successful deployment.
pub proof fn lemma_sync_only_after_deploy(s: RunSettings, stage: RunStage, succeeded: bool)
    ensures
        run_next_spec(s, stage, succeeded).1 == RunAction::Sync ==> stage == RunStage::Deploying && succeeded
            && s.sync_enabled,
{
}

/// A rollback is only requested after a failed build, backup or
/// deployment, and only when rollback is enabled and a target directory is
/// set.
pub proof fn lemma_rollback_only_after_failure(s: RunSettings, stage: RunStage, succeeded: bool)
    ensures
        run_next_spec(s, stage, succeeded).1 == RunAction::Rollback ==> !succeeded && rolls_back(s) && (stage
            == RunStage::Building || stage == RunStage::BackingUp || stage == RunStage::Deploying),
{
}

/// A failed sync does not fail the workflow: the deployment stands.
pub proof fn lemma_sync_failure_tolerated(s: RunSettings)
    ensures
        run_next_spec(s, RunStage::Syncing, false) == (RunStage::Finished(None), RunAction::Succeed),
{
}

/// The step whose failure a stage reports.
pub open spec fn step_of(stage: RunStage) -> FailedStep {
    match stage {
        RunStage::Building => FailedStep::Build,
        RunStage::BackingUp => FailedStep::Backup,
        _ => FailedStep::Deploy,
    }
}

/// A failed build, backup or deployment stops the workflow: nothing is
/// deployed or synced after it, and the workflow ends failed at that step,
/// after a rollback (whatever its outcome) when one applies, at once
/// otherwise.
pub proof fn lemma_failure_stops(s: RunSettings, stage: RunStage, rollback_outcome: bool)
    requires
        stage == RunStage::Building || stage == RunStage::BackingUp || stage == RunStage::Deploying,
    ensures
        ({
            let (st, act) = run_next_spec(s, stage, false);
            let f = step_of(stage);
            &&& act != RunAction::Deploy && act != RunAction::Sync
            &&& if rolls_back(s) {
                &&& (st, act) == (RunStage::RollingBack(f), RunAction::Rollback)
                &&& run_next_spec(s, st, rollback_outcome) == (RunStage::Finished(Some(f)), RunAction::Fail(f))
            } else {
                (st, act) == (RunStage::Finished(Some(f)), RunAction::Fail(f))
            }
        }),
{
}

/// Artifacts are checked after every successful build that has them,
/// whatever the rollback setting: the step after a successful build is the
/// artifact check exactly when there are artifacts.
pub proof fn lemma_artifacts_checked_after_build(s: RunSettings)
    ensures
        (run_next_spec(s, RunStage::Building, true).1 == RunAction::VerifyArtifacts) <==> s.has_artifacts,
        s.has_artifacts ==> run_next_spec(s, RunStage::Building, true) == (
            RunStage::VerifyingArtifacts,
            RunAction::VerifyArtifacts,
        ),
{
}

/// A deployment (or the backup before it) is requested only after the
/// step before succeeded, and, with artifacts configured, never straight
/// after the build: only once their check has passed.
pub proof fn lemma_deploy_only_after_checks(s: RunSettings, stage: RunStage, succeeded: bool)
    ensures
        run_next_spec(s, stage, succeeded).1 == RunAction::Deploy ==> succeeded && (stage == RunStage::VerifyingArtifacts
            || stage == RunStage::BackingUp || (stage == RunStage::Building && !s.has_artifacts)),
        run_next_spec(s, stage, succeeded).1 == RunAction::Backup ==> succeeded && s.rollback_enabled && s.has_artifacts
            && stage == RunStage::VerifyingArtifacts,
{
}

} // verus!
