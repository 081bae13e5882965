use agentor::actor::message::Timestamp;
use agentor::builder::{parse_command, verify_artifacts};
use agentor::config::Config;
use agentor::deployer::deploy_plan;
use agentor::hook::generate_hook_script;
use agentor::logger::{last_lines, lines, parse_log_level, LogLevel};
use agentor::rollback::{RollbackError, State, Version};
use agentor::runner::{run_next, run_start, FailedStep, RunAction, RunSettings, RunStage};
use agentor::status::{history_lines, join};

#[test]
fn test_default_config() {
    let config = Config::default();

    assert_eq!(config.watch.repo_path, ".");
    assert_eq!(config.watch.branch, "main");
    assert!(!config.build.command.is_empty());
    assert!(config.sync.enabled);
    assert_eq!(config.sync.remote, "origin");
    assert_eq!(config.rollback.keep_versions, 3);
}

#[test]
fn test_parse_command() {
    let (prog, args) = parse_command("cargo build --release").unwrap();
    assert_eq!(prog, "cargo");
    assert_eq!(args, vec!["build", "--release"]);
    let (prog, args) = parse_command("  systemctl\trestart   app.service \n").unwrap();
    assert_eq!(prog, "systemctl");
    assert_eq!(args, vec!["restart", "app.service"]);
    assert!(parse_command("   ").is_none());
    assert!(parse_command("").is_none());
}

#[test]
fn test_verify_artifacts() {
    let arts = vec!["target/release/my-app".to_string(), "config.json".to_string()];
    assert_eq!(verify_artifacts(&arts, &vec![true, true]), Ok(()));
    assert_eq!(
        verify_artifacts(&arts, &vec![true, false]),
        Err("Build artifact not found: config.json".to_string())
    );
    assert_eq!(
        verify_artifacts(&arts, &vec![false, false]),
        Err("Build artifact not found: target/release/my-app".to_string())
    );
}

#[test]
fn test_deploy_plan() {
    let arts = vec!["a".to_string()];
    let p = deploy_plan("systemctl restart app.service", "/opt/deploy", &arts);
    assert!(p.copy_files && p.run_command);
    let p = deploy_plan("", "/opt/deploy", &vec![]);
    assert!(!p.copy_files && !p.run_command);
    let p = deploy_plan("", "", &arts);
    assert!(!p.copy_files);
}

#[test]
fn test_hook_script() {
    assert_eq!(generate_hook_script(), "#!/bin/sh\n# Agentor post-commit hook\nagentor run\n");
}

#[test]
fn test_log_levels() {
    assert_eq!(parse_log_level("TRACE"), LogLevel::Trace);
    assert_eq!(parse_log_level("debug"), LogLevel::Debug);
    assert_eq!(parse_log_level("Warn"), LogLevel::Warn);
    assert_eq!(parse_log_level("error"), LogLevel::Error);
    assert_eq!(parse_log_level("info"), LogLevel::Info);
    assert_eq!(parse_log_level("verbose"), LogLevel::Info);
}

#[test]
fn test_log_lines() {
    assert_eq!(lines("a\nb\r\nc"), vec!["a", "b", "c"]);
    assert_eq!(lines("a\n\nb\n"), vec!["a", "", "b"]);
    assert_eq!(lines(""), Vec::<String>::new());
    assert_eq!(lines("x\r"), vec!["x\r"]);
    assert_eq!(last_lines("1\n2\n3\n4\n", 2), vec!["3", "4"]);
    assert_eq!(last_lines("1\n2\n", 5), vec!["1", "2"]);
    assert_eq!(last_lines("1\n2\n", 0), Vec::<String>::new());
}

fn version(commit: &str) -> Version {
    Version { commit: commit.to_string(), timestamp: Timestamp { secs: 0, nanos: 0 }, artifacts: vec!["app".to_string()] }
}

#[test]
fn test_backup_and_rollback_target() {
    let mut state = State::new();
    assert_eq!(state.rollback_target(), Err(RollbackError::NoPreviousVersion));
    assert_eq!(RollbackError::NoPreviousVersion.describe(), "No previous version available for rollback");
    assert!(state.record_backup(version("c1"), 3).is_empty());
    assert_eq!(state.rollback_target(), Err(RollbackError::NoPreviousVersion));
    assert!(state.record_backup(version("c2"), 3).is_empty());
    assert!(state.record_backup(version("c3"), 3).is_empty());
    let removed = state.record_backup(version("c4"), 3);
    assert_eq!(removed.len(), 1);
    assert_eq!(removed[0].commit, "c1");
    assert_eq!(state.versions.len(), 3);
    assert_eq!(state.current_version.as_deref(), Some("c4"));
    let target = state.rollback_target().unwrap();
    assert_eq!(state.versions[target].commit, "c3");
    state.set_current("c3");
    assert_eq!(state.current_version.as_deref(), Some("c3"));

    let mut none = State::new();
    let removed = none.record_backup(version("only"), 0);
    assert_eq!(removed.len(), 1);
    assert!(none.versions.is_empty());
    assert_eq!(none.current_version.as_deref(), Some("only"));
}

fn settings(artifacts: bool, target: bool, rollback: bool, sync: bool) -> RunSettings {
    RunSettings { has_artifacts: artifacts, has_target_dir: target, rollback_enabled: rollback, sync_enabled: sync }
}

#[test]
fn test_run_workflow_success() {
    let s = settings(true, true, true, true);
    let (mut stage, mut action) = run_start();
    let mut actions = vec![action];
    while !matches!(stage, RunStage::Finished(_)) {
        let (st, act) = run_next(&s, stage, true);
        stage = st;
        action = act;
        actions.push(action);
    }
    assert_eq!(
        actions,
        vec![
            RunAction::Build,
            RunAction::VerifyArtifacts,
            RunAction::Backup,
            RunAction::Deploy,
            RunAction::Sync,
            RunAction::Succeed
        ]
    );
}

#[test]
fn test_run_workflow_failures() {
    let s = settings(false, true, true, false);
    let (st, act) = run_next(&s, RunStage::Building, false);
    assert_eq!(act, RunAction::Rollback);
    assert_eq!(run_next(&s, st, false), (RunStage::Finished(Some(FailedStep::Build)), RunAction::Fail(FailedStep::Build)));

    let s2 = settings(true, false, true, true);
    assert_eq!(run_next(&s2, RunStage::Deploying, false).1, RunAction::Fail(FailedStep::Deploy));
    assert_eq!(run_next(&s2, RunStage::VerifyingArtifacts, false).1, RunAction::Fail(FailedStep::VerifyArtifacts));
    assert_eq!(run_next(&s2, RunStage::Syncing, false), (RunStage::Finished(None), RunAction::Succeed));
    assert_eq!(
        run_next(&s2, RunStage::BackingUp, false),
        (RunStage::Finished(Some(FailedStep::Backup)), RunAction::Fail(FailedStep::Backup))
    );
    let s3 = settings(true, true, true, false);
    let (st, act) = run_next(&s3, RunStage::BackingUp, false);
    assert_eq!((st, act), (RunStage::RollingBack(FailedStep::Backup), RunAction::Rollback));
    assert_eq!(run_next(&s3, st, true), (RunStage::Finished(Some(FailedStep::Backup)), RunAction::Fail(FailedStep::Backup)));
    assert_eq!(run_next(&s3, RunStage::BackingUp, true).1, RunAction::Deploy);

    let cfg = Config::default();
    let from = RunSettings::from_config(&cfg);
    assert!(!from.has_artifacts && !from.has_target_dir && from.rollback_enabled && from.sync_enabled);
    assert_eq!(run_next(&from, RunStage::Building, true).1, RunAction::Deploy);
}

#[test]
fn test_join() {
    let parts = vec!["app".to_string(), "lib.so".to_string(), "conf".to_string()];
    assert_eq!(join(&parts, ", "), "app, lib.so, conf");
    assert_eq!(join(&vec!["one".to_string()], ", "), "one");
    assert_eq!(join(&Vec::new(), ", "), "");
}

#[test]
fn test_history_lines() {
    let mut state = State::new();
    assert!(history_lines(&state).is_empty());
    state.record_backup(Version { commit: "aaa".to_string(), timestamp: Timestamp { secs: 1, nanos: 5 }, artifacts: vec!["x".to_string()] }, 5);
    state.record_backup(
        Version { commit: "bbb".to_string(), timestamp: Timestamp { secs: 2, nanos: 7 }, artifacts: vec!["x".to_string(), "y".to_string()] },
        5,
    );
    state.set_current("aaa");
    let lines = history_lines(&state);
    assert_eq!(lines.len(), 2);
    assert_eq!(lines[0].number, 1);
    assert_eq!(lines[0].commit, "bbb");
    assert_eq!(lines[0].timestamp, Timestamp { secs: 2, nanos: 7 });
    assert_eq!(lines[0].artifacts, "x, y");
    assert!(!lines[0].is_current);
    assert_eq!(lines[1].number, 2);
    assert_eq!(lines[1].commit, "aaa");
    assert_eq!(lines[1].artifacts, "x");
    assert!(lines[1].is_current);
}
