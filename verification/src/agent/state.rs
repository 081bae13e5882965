//! An agent's private state: short-term memory (a bounded window of recent
//! entries), long-term memory, its phase, and counters.
use std::collections::VecDeque;
use vstd::prelude::*;
use crate::actor::message::{current_time, Timestamp};
use crate::bounded::bounded_push;
use crate::json::json_clone;

verus! {

/// One memory entry.
#[derive(Debug)]
pub struct MemoryEntry {
    /// When the entry was made.
    pub timestamp: Timestamp,
    pub role: String,
    pub content: String,
    pub metadata: Option<serde_json::Value>,
}

impl Clone for MemoryEntry {
    fn clone(&self) -> (r: Self)
        ensures
            r == *self,
    {
        let metadata = match &self.metadata {
            Some(m) => Some(json_clone(m)),
            None => None,
        };
        MemoryEntry {
            timestamp: self.timestamp,
            role: self.role.clone(),
            content: self.content.clone(),
            metadata,
        }
    }
}

impl MemoryEntry {
    /// An entry with the given role and content, stamped with the current
    /// time.
    pub fn now(role: &str, content: &str, metadata: Option<serde_json::Value>) -> (r: Self)
        ensures
            r.role@ == role@,
            r.content@ == content@,
            r.metadata == metadata,
    {
        MemoryEntry {
            timestamp: current_time(),
            role: String::from_str(role),
            content: String::from_str(content),
            metadata,
        }
    }
}

/// The phase of an agent's work.
#[derive(Debug, Clone, Copy, PartialEq, Eq, Structural)]
pub enum AgentPhase {
    /// Waiting for input.
    Idle,
    /// Thinking or planning.
    Thinking,
    /// Running a tool.
    Executing,
    /// Waiting for a human's approval.
    AwaitingHuman,
    /// Producing streamed output.
    Streaming,
    /// Done with the current task.
    Completed,
    /// Failed.
    Failed,
}

/// An agent's memory and counters.
#[derive(Debug)]
pub struct AgentState {
    /// Recent entries, oldest first.
    pub short_term: VecDeque<MemoryEntry>,
    /// How many recent entries are kept.
    pub short_term_capacity: usize,
    /// Entries kept for good.
    pub long_term: Vec<MemoryEntry>,
    pub phase: AgentPhase,
    /// The time of the last activity.
    pub last_active: Timestamp,
    pub message_count: u64,
    pub token_usage: u64,
}

/// Clones a sequence of memory entries.
fn clone_entries(v: &VecDeque<MemoryEntry>) -> (r: VecDeque<MemoryEntry>)
    ensures
        r@ == v@,
{
    let mut out: VecDeque<MemoryEntry> = VecDeque::new();
    let mut i: usize = 0;
    while i < v.len()
        invariant
            i <= v@.len(),
            out@ == v@.subrange(0, i as int),
        decreases v@.len() - i,
    {
        out.push_back(v[i].clone());
        i = i + 1;
        assert(out@ =~= v@.subrange(0, i as int));
    }
    assert(out@ =~= v@);
    out
}

fn clone_entry_vec(v: &Vec<MemoryEntry>) -> (r: Vec<MemoryEntry>)
    ensures
        r@ == v@,
{
    let mut out: Vec<MemoryEntry> = Vec::new();
    let mut i: usize = 0;
    while i < v.len()
        invariant
            i <= v@.len(),
            out@ == v@.subrange(0, i as int),
        decreases v@.len() - i,
    {
        out.push(v[i].clone());
        i = i + 1;
        assert(out@ =~= v@.subrange(0, i as int));
    }
    assert(out@ =~= v@);
    out
}

impl Clone for AgentState {
    fn clone(&self) -> (r: Self)
        ensures
            r.short_term@ == self.short_term@,
            r.short_term_capacity == self.short_term_capacity,
            r.long_term@ == self.long_term@,
            r.phase == self.phase,
            r.last_active == self.last_active,
            r.message_count == self.message_count,
            r.token_usage == self.token_usage,
    {
        AgentState {
            short_term: clone_entries(&self.short_term),
            short_term_capacity: self.short_term_capacity,
            long_term: clone_entry_vec(&self.long_term),
            phase: self.phase,
            last_active: self.last_active,
            message_count: self.message_count,
            token_usage: self.token_usage,
        }
    }
}

/// The newest `n` entries of `s`, newest first.
pub open spec fn recent_spec<T>(s: Seq<T>, n: nat) -> Seq<T> {
    let k = if n < s.len() { n } else { s.len() };
    Seq::new(k, |i: int| s[s.len() - 1 - i])
}

impl AgentState {
    /// An idle state with empty memories that keeps `short_term_capacity`
    /// recent entries.
    pub fn new(short_term_capacity: usize) -> (r: Self)
        ensures
            r.short_term@.len() == 0,
            r.short_term_capacity == short_term_capacity,
            r.long_term@.len() == 0,
            r.phase == AgentPhase::Idle,
            r.message_count == 0,
            r.token_usage == 0,
    {
        AgentState {
            short_term: VecDeque::new(),
            short_term_capacity,
            long_term: Vec::new(),
            phase: AgentPhase::Idle,
            last_active: current_time(),
            message_count: 0,
            token_usage: 0,
        }
    }

    /// Adds a recent entry, dropping the oldest one when the window is full.
    pub fn push_short_term(&mut self, entry: MemoryEntry)
        ensures
            final(self).short_term@ == bounded_push(old(self).short_term@, entry, old(self).short_term_capacity as nat),
            final(self).short_term_capacity == old(self).short_term_capacity,
            final(self).long_term@ == old(self).long_term@,
            final(self).phase == old(self).phase,
            final(self).last_active == old(self).last_active,
            final(self).message_count == old(self).message_count,
            final(self).token_usage == old(self).token_usage,
    {
        if self.short_term.len() >= self.short_term_capacity {
            self.short_term.pop_front();
        }
        self.short_term.push_back(entry);
        proof {
            let s = old(self).short_term@;
            if s.len() >= self.short_term_capacity && s.len() > 0 {
                assert(self.short_term@ =~= s.drop_first().push(entry));
            }
        }
    }

    /// Adds a long-term entry.
    pub fn push_long_term(&mut self, entry: MemoryEntry)
        ensures
            final(self).long_term@ == old(self).long_term@.push(entry),
            final(self).short_term@ == old(self).short_term@,
            final(self).short_term_capacity == old(self).short_term_capacity,
            final(self).phase == old(self).phase,
            final(self).last_active == old(self).last_active,
            final(self).message_count == old(self).message_count,
            final(self).token_usage == old(self).token_usage,
    {
        self.long_term.push(entry);
    }

    /// The newest `n` short-term entries, newest first.
    pub fn recent_memories(&self, n: usize) -> (r: Vec<&MemoryEntry>)
        ensures
            r@.map_values(|e: &MemoryEntry| *e) == recent_spec(self.short_term@, n as nat),
    {
        let len = self.short_term.len();
        let k = if n < len { n } else { len };
        let mut out: Vec<&MemoryEntry> = Vec::new();
        let mut i: usize = 0;
        assert(out@.map_values(|e: &MemoryEntry| *e) =~= recent_spec(self.short_term@, 0));
        while i < k
            invariant
                i <= k,
                k <= len,
                len == self.short_term@.len(),
                k == (if n < len { n } else { len }),
                out@.map_values(|e: &MemoryEntry| *e) == recent_spec(self.short_term@, i as nat),
            decreases k - i,
        {
            let e = &self.short_term[len - 1 - i];
            assert(*e == self.short_term@[len - 1 - i]);
            let ghost prev = out@;
            out.push(e);
            assert(out@.map_values(|e: &MemoryEntry| *e) =~= prev.map_values(|e: &MemoryEntry| *e).push(*e));
            i = i + 1;
            assert(out@.map_values(|e: &MemoryEntry| *e) =~= recent_spec(self.short_term@, i as nat));
        }
        out
    }

    /// Records activity now.
    pub fn touch(&mut self)
        ensures
            final(self).short_term@ == old(self).short_term@,
            final(self).short_term_capacity == old(self).short_term_capacity,
            final(self).long_term@ == old(self).long_term@,
            final(self).phase == old(self).phase,
            final(self).message_count == old(self).message_count,
            final(self).token_usage == old(self).token_usage,
    {
        self.last_active = current_time();
    }

    /// Counts `tokens` more tokens as used.
    pub fn add_token_usage(&mut self, tokens: u64)
        requires
            old(self).token_usage + tokens <= u64::MAX,
        ensures
            final(self).token_usage == old(self).token_usage + tokens,
            final(self).short_term@ == old(self).short_term@,
            final(self).short_term_capacity == old(self).short_term_capacity,
            final(self).long_term@ == old(self).long_term@,
            final(self).phase == old(self).phase,
            final(self).last_active == old(self).last_active,
            final(self).message_count == old(self).message_count,
    {
        self.token_usage = self.token_usage + tokens;
    }
}

impl Default for AgentState {
    fn default() -> (r: Self)
        ensures
            r.short_term@.len() == 0,
            r.short_term_capacity == 50,
            r.long_term@.len() == 0,
            r.phase == AgentPhase::Idle,
            r.message_count == 0,
            r.token_usage == 0,
    {
        Self::new(50)
    }
}

} // verus!
