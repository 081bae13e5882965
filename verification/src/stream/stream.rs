//! Stream events and stream errors.
use vstd::prelude::*;

verus! {

/// One event of a stream.
#[derive(Debug)]
pub enum StreamEvent<T> {
    /// A piece of data.
    Data(T),
    /// The stream ended normally.
    End,
    /// The stream failed.
    Error(String),
    /// The consumer asked to stop.
    Cancel,
}

/// Why a stream operation failed.
#[derive(Debug, Clone, Copy, PartialEq, Eq, Structural)]
pub enum StreamError {
    /// The consumer is gone.
    ConsumerDropped,
    /// The producer is gone.
    ProducerDropped,
}

impl StreamError {
    /// The human-readable form of the error.
    pub fn describe(&self) -> (s: String)
        ensures
            s@ == (match *self {
                StreamError::ConsumerDropped => "stream consumer has been dropped"@,
                StreamError::ProducerDropped => "stream producer has been dropped"@,
            }),
    {
        match self {
            StreamError::ConsumerDropped => String::from_str("stream consumer has been dropped"),
            StreamError::ProducerDropped => String::from_str("stream producer has been dropped"),
        }
    }
}

} // verus!
