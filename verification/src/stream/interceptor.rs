//! Stream interception: each piece of data on its way from producer to
//! consumer is inspected, and a blocked piece ends the stream with an
//! error for the consumer and a cancellation for the producer.
use vstd::prelude::*;
use super::stream::StreamEvent;
use crate::text::{contains, lowercase, lowercase_spec, occurs_at};

verus! {

/// The verdict on a piece of data.
#[derive(Debug)]
pub enum InterceptResult {
    /// Let it through.
    Pass,
    /// Stop the stream, for the given reason.
    Block { reason: String },
}

/// Inspects each piece of data of a stream.
pub trait StreamInterceptor<T> {
    fn inspect(&mut self, chunk: &T) -> InterceptResult;
}

/// What the relay between producer and consumer does with an event.
#[derive(Debug)]
pub enum Relay<T> {
    /// Hand the data to the consumer and go on.
    Forward(T),
    /// Send `Error("intercepted: <reason>")` to the consumer, cancel the
    /// producer, and stop.
    Block { reason: String },
    /// Hand this final event to the consumer and stop.
    Finish(StreamEvent<T>),
}

/// Decides what the relay does with one event from the producer, given the
/// interceptor's verdict on it (the caller asks the interceptor about a
/// piece of data; the verdict is not read for other events): passed data is
/// forwarded, blocked data is blocked for the verdict's reason, and the end,
/// an error or a cancellation is passed on and ends the relay.
pub fn relay_event<T>(event: StreamEvent<T>, verdict: InterceptResult) -> (r: Relay<T>)
    ensures
        match event {
            StreamEvent::Data(d) => match verdict {
                InterceptResult::Pass => r == Relay::Forward(d),
                InterceptResult::Block { reason } => r == Relay::<T>::Block { reason },
            },
            _ => r == Relay::Finish(event),
        },
{
    match event {
        StreamEvent::Data(data) => match verdict {
            InterceptResult::Pass => Relay::Forward(data),
            InterceptResult::Block { reason } => Relay::Block { reason },
        },
        other => Relay::Finish(other),
    }
}

/// The error text the consumer receives when the stream is blocked.
pub fn intercepted_text(reason: &str) -> (s: String)
    ensures
        s@ == "intercepted: "@ + reason@,
{
    let mut s = String::from_str("intercepted: ");
    s.append(reason);
    s
}

/// Whether `kw`, in lower case, occurs in `chunk`, in lower case.
pub open spec fn keyword_hit(chunk: Seq<char>, kw: Seq<char>) -> bool {
    exists|i: int| occurs_at(lowercase_spec(chunk), lowercase_spec(kw), i)
}

/// Blocks the pieces of text that contain one of its keywords, ignoring
/// case.
pub struct KeywordInterceptor {
    pub keywords: Vec<String>,
}

impl KeywordInterceptor {
    /// An interceptor for the given keywords.
    pub fn new(keywords: Vec<String>) -> (r: Self)
        ensures
            r.keywords == keywords,
    {
        KeywordInterceptor { keywords }
    }

    /// The verdict on a piece of text: blocked, naming the first keyword
    /// (in order) that it contains ignoring case, or passed when it
    /// contains none.
    pub fn check(&self, chunk: &str) -> (r: InterceptResult)
        ensures
            match r {
                InterceptResult::Pass => forall|k: int| 0 <= k < self.keywords@.len() ==> !keyword_hit(chunk@, #[trigger] self.keywords@[k]@),
                InterceptResult::Block { reason } => exists|k: int| {
                    &&& 0 <= k < self.keywords@.len()
                    &&& keyword_hit(chunk@, self.keywords@[k]@)
                    &&& (forall|j: int| 0 <= j < k ==> !keyword_hit(chunk@, #[trigger] self.keywords@[j]@))
                    &&& reason@ == "blocked keyword: "@ + self.keywords@[k]@
                },
            },
    {
        let lower = lowercase(chunk);
        let mut k: usize = 0;
        while k < self.keywords.len()
            invariant
                k <= self.keywords@.len(),
                lower@ == lowercase_spec(chunk@),
                forall|j: int| 0 <= j < k ==> !keyword_hit(chunk@, #[trigger] self.keywords@[j]@),
            decreases self.keywords@.len() - k,
        {
            let kw = &self.keywords[k];
            let lkw = lowercase(kw.as_str());
            if contains(lower.as_str(), lkw.as_str()) {
                let mut reason = String::from_str("blocked keyword: ");
                reason.append(kw.as_str());
                assert(keyword_hit(chunk@, self.keywords@[k as int]@));
                return InterceptResult::Block { reason };
            }
            k = k + 1;
        }
        InterceptResult::Pass
    }
}

impl StreamInterceptor<String> for KeywordInterceptor {
    /// The verdict of `check` on the piece of text.
    fn inspect(&mut self, chunk: &String) -> (r: InterceptResult)
        ensures
            final(self).keywords == old(self).keywords,
            match r {
                InterceptResult::Pass => forall|k: int| 0 <= k < old(self).keywords@.len() ==> !keyword_hit(chunk@, #[trigger] old(self).keywords@[k]@),
                InterceptResult::Block { reason } => exists|k: int| {
                    &&& 0 <= k < old(self).keywords@.len()
                    &&& keyword_hit(chunk@, old(self).keywords@[k]@)
                    &&& (forall|j: int| 0 <= j < k ==> !keyword_hit(chunk@, #[trigger] old(self).keywords@[j]@))
                    &&& reason@ == "blocked keyword: "@ + old(self).keywords@[k]@
                },
            },
    {
        self.check(chunk.as_str())
    }
}

} // verus!
