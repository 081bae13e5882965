//! An actor runtime for AI agents: mailboxes with retry and dead letters,
//! supervision decisions, agent memory, token budgets, tracing buffers and
//! the deployment workflow's bookkeeping.
pub mod actor;
pub mod text;
pub mod budget;
pub mod environment;
pub mod keyed;
pub mod supervisor;
pub mod bounded;
pub mod json;
pub mod agent;
pub mod observe;
pub mod stream;
pub mod builder;
pub mod config;
pub mod deployer;
pub mod hook;
pub mod logger;
pub mod rollback;
pub mod runner;
pub mod status;
