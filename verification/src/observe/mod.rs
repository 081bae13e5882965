//! Observability: a bounded buffer of trace events, queried by trace and by
//! actor.
pub mod trace;

pub use trace::{TraceCollector, TraceEvent, TraceEventType};
