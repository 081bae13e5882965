//! The agent layer: agent memory and phases, LLM message types, checkpoints,
//! output parsing, and the agent's message handling.
pub mod agent;
pub mod checkpoint;
pub mod llm;
pub mod parser;
pub mod state;
pub mod tool;

pub use agent::{AgentActor, AgentMessage};
pub use checkpoint::{Checkpoint, CheckpointStore};
pub use llm::{LlmMessage, LlmResponse, LlmRole};
pub use state::{AgentPhase, AgentState, MemoryEntry};
