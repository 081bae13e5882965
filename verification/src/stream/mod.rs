//! Streams between actors: stream events, and interception of the data
//! flowing from a producer to a consumer.
pub mod interceptor;
pub mod stream;

pub use interceptor::{InterceptResult, KeywordInterceptor, Relay, StreamInterceptor};
pub use stream::{StreamError, StreamEvent};
