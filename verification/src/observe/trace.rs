//! Trace events and their collector.
use std::collections::VecDeque;
use vstd::prelude::*;
use crate::actor::message::{ActorId, Timestamp, current_time, fresh_uuid};
use crate::bounded::bounded_push;
use crate::json::json_clone;

verus! {

/// The kind of a trace event.
#[derive(Debug)]
pub enum TraceEventType {
    MessageReceived,
    MessageSent,
    StateChanged,
    ToolCalled,
    LlmRequest,
    LlmResponse,
    Error,
    CheckpointSaved,
    ActorStarted,
    ActorStopped,
    Custom(String),
}

impl Clone for TraceEventType {
    fn clone(&self) -> (r: Self)
        ensures
            r == *self,
    {
        match self {
            TraceEventType::MessageReceived => TraceEventType::MessageReceived,
            TraceEventType::MessageSent => TraceEventType::MessageSent,
            TraceEventType::StateChanged => TraceEventType::StateChanged,
            TraceEventType::ToolCalled => TraceEventType::ToolCalled,
            TraceEventType::LlmRequest => TraceEventType::LlmRequest,
            TraceEventType::LlmResponse => TraceEventType::LlmResponse,
            TraceEventType::Error => TraceEventType::Error,
            TraceEventType::CheckpointSaved => TraceEventType::CheckpointSaved,
            TraceEventType::ActorStarted => TraceEventType::ActorStarted,
            TraceEventType::ActorStopped => TraceEventType::ActorStopped,
            TraceEventType::Custom(s) => TraceEventType::Custom(s.clone()),
        }
    }
}

/// The observation type an event is reported as: model calls are
/// generations, tool calls are spans, the rest are events.
pub open spec fn observation_type_spec(t: TraceEventType) -> Seq<char> {
    match t {
        TraceEventType::LlmRequest => "GENERATION"@,
        TraceEventType::LlmResponse => "GENERATION"@,
        TraceEventType::ToolCalled => "SPAN"@,
        _ => "EVENT"@,
    }
}

impl TraceEventType {
    /// The observation type the event is reported as.
    pub fn as_observation_type(&self) -> (r: &'static str)
        ensures
            r@ == observation_type_spec(*self),
    {
        match self {
            TraceEventType::LlmRequest | TraceEventType::LlmResponse => "GENERATION",
            TraceEventType::ToolCalled => "SPAN",
            _ => "EVENT",
        }
    }
}

/// The name a trace is reported under: `actor:<name>`.
pub fn trace_name(actor_id: &ActorId) -> (s: String)
    ensures
        s@ == "actor:"@ + actor_id.name@,
{
    let mut s = String::from_str("actor:");
    s.append(actor_id.name.as_str());
    s
}

/// The token-usage metrics reported for one model call: prompt,
/// completion, and their total.
pub fn token_usage_points(prompt_tokens: u64, completion_tokens: u64) -> (r: Vec<(&'static str, u64)>)
    requires
        prompt_tokens + completion_tokens <= u64::MAX,
    ensures
        r@.len() == 3,
        r@[0].0@ == "prompt_tokens"@ && r@[0].1 == prompt_tokens,
        r@[1].0@ == "completion_tokens"@ && r@[1].1 == completion_tokens,
        r@[2].0@ == "total_tokens"@ && r@[2].1 == prompt_tokens + completion_tokens,
{
    let mut r: Vec<(&'static str, u64)> = Vec::new();
    r.push(("prompt_tokens", prompt_tokens));
    r.push(("completion_tokens", completion_tokens));
    r.push(("total_tokens", prompt_tokens + completion_tokens));
    r
}

/// One trace event.
#[derive(Debug)]
pub struct TraceEvent {
    pub id: u128,
    pub trace_id: u128,
    /// When the event happened.
    pub timestamp: Timestamp,
    pub actor_id: ActorId,
    pub event_type: TraceEventType,
    pub detail: String,
    pub metadata: Option<serde_json::Value>,
}

impl Clone for TraceEvent {
    fn clone(&self) -> (r: Self)
        ensures
            r == *self,
    {
        let metadata = match &self.metadata {
            Some(m) => Some(json_clone(m)),
            None => None,
        };
        TraceEvent {
            id: self.id,
            trace_id: self.trace_id,
            timestamp: self.timestamp,
            actor_id: self.actor_id.clone(),
            event_type: self.event_type.clone(),
            detail: self.detail.clone(),
            metadata,
        }
    }
}

/// The events of `s` on trace `t`, in order.
pub open spec fn on_trace(s: Seq<TraceEvent>, t: u128) -> Seq<TraceEvent>
    decreases s.len(),
{
    if s.len() == 0 {
        Seq::empty()
    } else {
        let r = on_trace(s.drop_last(), t);
        if s.last().trace_id == t {
            r.push(s.last())
        } else {
            r
        }
    }
}

/// The events of `s` from actor `a`, newest first.
pub open spec fn by_actor_newest_first(s: Seq<TraceEvent>, a: (u128, Seq<char>)) -> Seq<TraceEvent>
    decreases s.len(),
{
    if s.len() == 0 {
        Seq::empty()
    } else {
        let r = by_actor_newest_first(s.drop_first(), a);
        if s[0].actor_id@ == a {
            r.push(s[0])
        } else {
            r
        }
    }
}

proof fn lemma_by_actor_split(s: Seq<TraceEvent>, i: int, a: (u128, Seq<char>))
    requires
        0 <= i <= s.len(),
    ensures
        by_actor_newest_first(s, a) == by_actor_newest_first(s.subrange(i, s.len() as int), a)
            + by_actor_newest_first(s.subrange(0, i), a),
    decreases i,
{
    if i == 0 {
        assert(s.subrange(0, s.len() as int) =~= s);
        assert(by_actor_newest_first(s.subrange(0, 0), a) =~= Seq::<TraceEvent>::empty());
        assert(by_actor_newest_first(s, a) + Seq::<TraceEvent>::empty() =~= by_actor_newest_first(s, a));
    } else {
        lemma_by_actor_split(s.drop_first(), i - 1, a);
        assert(s.drop_first().subrange(i - 1, s.len() - 1) =~= s.subrange(i, s.len() as int));
        assert(s.subrange(0, i).drop_first() =~= s.drop_first().subrange(0, i - 1));
        assert(s.subrange(0, i)[0] == s[0]);
        let x = by_actor_newest_first(s.subrange(i, s.len() as int), a);
        let y = by_actor_newest_first(s.drop_first().subrange(0, i - 1), a);
        if s[0].actor_id@ == a {
            assert((x + y).push(s[0]) =~= x + y.push(s[0]));
        }
    }
}

/// Collects trace events in a bounded buffer that keeps the most recent
/// ones.
pub struct TraceCollector {
    events: VecDeque<TraceEvent>,
    capacity: usize,
}

impl TraceCollector {
    /// The buffered events, oldest first.
    pub closed spec fn spec_events(&self) -> Seq<TraceEvent> {
        self.events@
    }

    /// How many events the buffer keeps.
    pub closed spec fn spec_capacity(&self) -> nat {
        self.capacity as nat
    }

    /// An empty collector that keeps up to `capacity` events.
    pub fn new(capacity: usize) -> (r: Self)
        ensures
            r.spec_events() == Seq::<TraceEvent>::empty(),
            r.spec_capacity() == capacity,
    {
        TraceCollector { events: VecDeque::new(), capacity }
    }

    /// Records an event, dropping the oldest one when the buffer is full.
    pub fn record(&mut self, event: TraceEvent)
        ensures
            final(self).spec_events() == bounded_push(old(self).spec_events(), event, old(self).spec_capacity()),
            final(self).spec_capacity() == old(self).spec_capacity(),
    {
        if self.events.len() >= self.capacity {
            self.events.pop_front();
        }
        self.events.push_back(event);
        proof {
            let s = old(self).events@;
            if s.len() >= self.capacity && s.len() > 0 {
                assert(self.events@ =~= s.drop_first().push(event));
            }
        }
    }

    /// Records a simple event on trace `trace_id`, with a fresh id, the
    /// current time and no metadata.
    pub fn log(&mut self, trace_id: u128, actor_id: &ActorId, event_type: TraceEventType, detail: &str)
        ensures
            final(self).spec_capacity() == old(self).spec_capacity(),
            final(self).spec_events().len() > 0,
            final(self).spec_events() == bounded_push(
                old(self).spec_events(),
                final(self).spec_events().last(),
                old(self).spec_capacity(),
            ),
            final(self).spec_events().last().trace_id == trace_id,
            final(self).spec_events().last().actor_id == *actor_id,
            final(self).spec_events().last().event_type == event_type,
            final(self).spec_events().last().detail@ == detail@,
            final(self).spec_events().last().metadata is None,
    {
        let event = TraceEvent {
            id: fresh_uuid(),
            trace_id,
            timestamp: current_time(),
            actor_id: actor_id.clone(),
            event_type,
            detail: String::from_str(detail),
            metadata: None,
        };
        self.record(event);
    }

    /// The events on a trace, oldest first.
    pub fn query_by_trace(&self, trace_id: u128) -> (r: Vec<TraceEvent>)
        ensures
            r@ == on_trace(self.spec_events(), trace_id),
    {
        let ghost s = self.events@;
        let mut out: Vec<TraceEvent> = Vec::new();
        let mut i: usize = 0;
        assert(s.subrange(0, 0) =~= Seq::<TraceEvent>::empty());
        while i < self.events.len()
            invariant
                i <= s.len(),
                s == self.events@,
                out@ == on_trace(s.subrange(0, i as int), trace_id),
            decreases s.len() - i,
        {
            assert(s.subrange(0, i + 1).drop_last() =~= s.subrange(0, i as int));
            let e = &self.events[i];
            if e.trace_id == trace_id {
                out.push(e.clone());
            }
            i = i + 1;
        }
        assert(s.subrange(0, s.len() as int) =~= s);
        out
    }

    /// The newest `limit` events from an actor, newest first.
    pub fn query_by_actor(&self, actor_id: &ActorId, limit: usize) -> (r: Vec<TraceEvent>)
        ensures
            r@ == by_actor_newest_first(self.spec_events(), actor_id@).take(
                if limit < by_actor_newest_first(self.spec_events(), actor_id@).len() {
                    limit as int
                } else {
                    by_actor_newest_first(self.spec_events(), actor_id@).len() as int
                },
            ),
    {
        let ghost s = self.events@;
        let ghost a = actor_id@;
        let n = self.events.len();
        let mut out: Vec<TraceEvent> = Vec::new();
        let mut i: usize = n;
        assert(s.subrange(n as int, n as int) =~= Seq::<TraceEvent>::empty());
        while i > 0 && out.len() < limit
            invariant
                i <= n,
                n == s.len(),
                s == self.events@,
                a == actor_id@,
                out@ == by_actor_newest_first(s.subrange(i as int, n as int), a),
                out@.len() <= limit,
            decreases i,
        {
            let e = &self.events[i - 1];
            proof {
                assert(s.subrange(i - 1, n as int).drop_first() =~= s.subrange(i as int, n as int));
                assert(s.subrange(i - 1, n as int)[0] == s[i - 1]);
            }
            if e.actor_id.same(actor_id) {
                out.push(e.clone());
            }
            i = i - 1;
        }
        proof {
            lemma_by_actor_split(s, i as int, a);
            let whole = by_actor_newest_first(s, a);
            let x = by_actor_newest_first(s.subrange(i as int, n as int), a);
            let k = if limit < whole.len() { limit as int } else { whole.len() as int };
            if i == 0 {
                assert(s.subrange(0, n as int) =~= s);
                assert(by_actor_newest_first(s.subrange(0, 0), a) =~= Seq::<TraceEvent>::empty());
                assert(x =~= whole);
                assert(whole.take(k) =~= whole);
            } else {
                assert(out@.len() == limit);
                assert(whole.take(k) =~= x);
            }
        }
        out
    }

    /// All buffered events, oldest first.
    pub fn all_events(&self) -> (r: Vec<TraceEvent>)
        ensures
            r@ == self.spec_events(),
    {
        let mut out: Vec<TraceEvent> = Vec::new();
        let mut i: usize = 0;
        while i < self.events.len()
            invariant
                i <= self.events@.len(),
                out@ == self.events@.subrange(0, i as int),
            decreases self.events@.len() - i,
        {
            out.push(self.events[i].clone());
            i = i + 1;
            assert(out@ =~= self.events@.subrange(0, i as int));
        }
        assert(out@ =~= self.events@);
        out
    }

    /// The number of buffered events.
    pub fn len(&self) -> (r: usize)
        ensures
            r == self.spec_events().len(),
    {
        self.events.len()
    }

    /// Whether the buffer is empty.
    pub fn is_empty(&self) -> (r: bool)
        ensures
            r == (self.spec_events().len() == 0),
    {
        self.events.len() == 0
    }

    /// Forgets all buffered events.
    pub fn clear(&mut self)
        ensures
            final(self).spec_events() == Seq::<TraceEvent>::empty(),
            final(self).spec_capacity() == old(self).spec_capacity(),
    {
        self.events.clear();
    }
}

impl Default for TraceCollector {
    fn default() -> (r: Self)
        ensures
            r.spec_events() == Seq::<TraceEvent>::empty(),
            r.spec_capacity() == 10000,
    {
        Self::new(10000)
    }
}

/// Recording an event without eviction makes it the last answer of a query
/// on its trace, after the earlier ones.
pub proof fn lemma_record_then_query(s: Seq<TraceEvent>, e: TraceEvent, cap: nat)
    requires
        s.len() < cap,
    ensures
        on_trace(bounded_push(s, e, cap), e.trace_id) == on_trace(s, e.trace_id).push(e),
{
    assert(bounded_push(s, e, cap).drop_last() =~= s);
}

/// Recording an event leaves the answers for other traces as they were,
/// when nothing is evicted.
pub proof fn lemma_record_other_trace(s: Seq<TraceEvent>, e: TraceEvent, cap: nat, t: u128)
    requires
        s.len() < cap,
        e.trace_id != t,
    ensures
        on_trace(bounded_push(s, e, cap), t) == on_trace(s, t),
{
    assert(bounded_push(s, e, cap).drop_last() =~= s);
}

} // verus!
