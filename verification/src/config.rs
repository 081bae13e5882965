//! The deployment configuration (`deploy.toml`).
use vstd::prelude::*;

verus! {

/// The whole configuration.
#[derive(Debug)]
pub struct Config {
    pub watch: WatchConfig,
    pub build: BuildConfig,
    pub deploy: DeployConfig,
    pub sync: SyncConfig,
    pub rollback: RollbackConfig,
    pub log: LogConfig,
}

/// The repository to watch.
#[derive(Debug)]
pub struct WatchConfig {
    pub repo_path: String,
    pub branch: String,
}

/// How to build.
#[derive(Debug)]
pub struct BuildConfig {
    pub command: String,
}

/// How to deploy: a command to run, and/or artifacts to copy to a target
/// directory. Empty values mean "not configured".
#[derive(Debug)]
pub struct DeployConfig {
    pub command: String,
    pub target_dir: String,
    pub artifacts: Vec<String>,
}

/// Whether and where to push after a deployment.
#[derive(Debug)]
pub struct SyncConfig {
    pub enabled: bool,
    pub remote: String,
    pub branch: String,
}

/// Whether to keep versions for rollback, and how many.
#[derive(Debug)]
pub struct RollbackConfig {
    pub enabled: bool,
    pub keep_versions: usize,
}

/// Where and how much to log.
#[derive(Debug)]
pub struct LogConfig {
    pub file: String,
    pub level: String,
}

impl Config {
    /// The default configuration: watch `.` on `main`, build with
    /// `cargo build --release`, no deployment method, push to `origin`
    /// `main`, keep 3 versions, log to `agentor.log` at `info`.
    pub fn default() -> (r: Self)
        ensures
            r.watch.repo_path@ == "."@,
            r.watch.branch@ == "main"@,
            r.build.command@ == "cargo build --release"@,
            r.deploy.command@ == Seq::<char>::empty(),
            r.deploy.target_dir@ == Seq::<char>::empty(),
            r.deploy.artifacts@.len() == 0,
            r.sync.enabled,
            r.sync.remote@ == "origin"@,
            r.sync.branch@ == "main"@,
            r.rollback.enabled,
            r.rollback.keep_versions == 3,
            r.log.file@ == "agentor.log"@,
            r.log.level@ == "info"@,
    {
        Config {
            watch: WatchConfig { repo_path: String::from_str("."), branch: String::from_str("main") },
            build: BuildConfig { command: String::from_str("cargo build --release") },
            deploy: DeployConfig { command: String::new(), target_dir: String::new(), artifacts: Vec::new() },
            sync: SyncConfig { enabled: true, remote: String::from_str("origin"), branch: String::from_str("main") },
            rollback: RollbackConfig { enabled: true, keep_versions: 3 },
            log: LogConfig { file: String::from_str("agentor.log"), level: String::from_str("info") },
        }
    }
}

} // verus!
