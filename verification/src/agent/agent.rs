//! The agent actor: how it moves through its phases and fills its memory as
//! messages arrive.
//!
//! A user prompt is handled in two steps, because the model call between
//! them is done by the caller: `begin_message` records the prompt and hands
//! back the conversation to send, and `finish_prompt` records the reply (or
//! the echo fallback when there is no model or the call failed).
use vstd::prelude::*;
use super::checkpoint::{Checkpoint, CheckpointStore};
use super::llm::{LlmMessage, LlmRole};
use super::state::{AgentPhase, AgentState, MemoryEntry};
use crate::actor::message::{ActorId, current_time};
use crate::bounded::bounded_push;
use crate::json::{json_clone, json_object_of, json_single_member};
use crate::text::str_eq;

verus! {

/// Messages an agent understands.
#[derive(Debug)]
pub enum AgentMessage {
    /// Input from the user.
    UserPrompt(String),
    /// The output of a tool call.
    ToolResult { tool_name: String, output: String },
    /// A piece of streamed model output.
    StreamChunk(String),
    /// The end of streamed model output.
    StreamEnd,
    /// A request for a human's approval.
    RequestApproval { description: String },
    /// A human's answer to an approval request.
    ApprovalResult { approved: bool, comment: Option<String> },
    /// A request to create a sub-agent.
    SpawnSubAgent { name: String, config: serde_json::Value },
}

impl Clone for AgentMessage {
    fn clone(&self) -> (r: Self)
        ensures
            r == *self,
    {
        match self {
            AgentMessage::UserPrompt(p) => AgentMessage::UserPrompt(p.clone()),
            AgentMessage::ToolResult { tool_name, output } => AgentMessage::ToolResult {
                tool_name: tool_name.clone(),
                output: output.clone(),
            },
            AgentMessage::StreamChunk(c) => AgentMessage::StreamChunk(c.clone()),
            AgentMessage::StreamEnd => AgentMessage::StreamEnd,
            AgentMessage::RequestApproval { description } => AgentMessage::RequestApproval {
                description: description.clone(),
            },
            AgentMessage::ApprovalResult { approved, comment } => {
                let c = match comment {
                    Some(c) => Some(c.clone()),
                    None => None,
                };
                AgentMessage::ApprovalResult { approved: *approved, comment: c }
            },
            AgentMessage::SpawnSubAgent { name, config } => AgentMessage::SpawnSubAgent {
                name: name.clone(),
                config: json_clone(config),
            },
        }
    }
}

/// What the caller must do after `begin_message`.
#[derive(Debug)]
pub enum AgentStep {
    /// Nothing: the message is handled.
    Done,
    /// Call the model with `context` (when one is configured) and hand the
    /// outcome to `finish_prompt` together with `prompt`.
    CallModel { prompt: String, context: Vec<LlmMessage> },
}

/// The model role of a memory entry's role: `user`, `assistant` and
/// `system` map to themselves, anything else to the user.
pub open spec fn role_of(role: Seq<char>) -> LlmRole {
    if role == "user"@ {
        LlmRole::User
    } else if role == "assistant"@ {
        LlmRole::Assistant
    } else if role == "system"@ {
        LlmRole::System
    } else {
        LlmRole::User
    }
}

/// The conversation sent to the model: the system prompt, if any, then
/// each short-term memory entry in order.
pub open spec fn llm_context(system_prompt: Option<Seq<char>>, memories: Seq<MemoryEntry>) -> Seq<(LlmRole, Seq<char>)> {
    let head = match system_prompt {
        Some(p) => seq![(LlmRole::System, p)],
        None => Seq::empty(),
    };
    head + memories.map_values(|m: MemoryEntry| (role_of(m.role@), m.content@))
}

/// The phase after a message other than a user prompt.
pub open spec fn next_phase(phase: AgentPhase, msg: AgentMessage) -> AgentPhase {
    match msg {
        AgentMessage::UserPrompt(_) => AgentPhase::Thinking,
        AgentMessage::ToolResult { .. } => AgentPhase::Idle,
        AgentMessage::StreamChunk(_) => AgentPhase::Streaming,
        AgentMessage::StreamEnd => AgentPhase::Idle,
        AgentMessage::RequestApproval { .. } => AgentPhase::AwaitingHuman,
        AgentMessage::ApprovalResult { approved, .. } => if phase == AgentPhase::AwaitingHuman {
            if approved {
                AgentPhase::Executing
            } else {
                AgentPhase::Idle
            }
        } else {
            phase
        },
        AgentMessage::SpawnSubAgent { .. } => phase,
    }
}

/// `new` is `old` with one entry appended to its window of capacity `cap`,
/// and that entry has the given role, content and metadata.
pub open spec fn appended_entry(old: Seq<MemoryEntry>, new: Seq<MemoryEntry>, cap: nat, role: Seq<char>, content: Seq<char>, metadata: Option<serde_json::Value>) -> bool {
    &&& new.len() > 0
    &&& new == bounded_push(old, new.last(), cap)
    &&& new.last().role@ == role
    &&& new.last().content@ == content
    &&& new.last().metadata == metadata
}

/// Whether a checkpoint is due after `count` messages with the given
/// interval (`count.is_multiple_of(interval)`).
pub open spec fn checkpoint_due_spec(count: u64, interval: u64) -> bool {
    if interval == 0 {
        count == 0
    } else {
        count % interval == 0
    }
}

/// An agent: an actor with memory, phases, and optional checkpointing.
pub struct AgentActor {
    id: ActorId,
    state: AgentState,
    checkpoint_store: Option<CheckpointStore>,
    checkpoint_version: u64,
    checkpoint_interval: u64,
    system_prompt: Option<String>,
}

impl AgentActor {
    pub closed spec fn spec_id(&self) -> ActorId {
        self.id
    }

    pub closed spec fn spec_state(&self) -> AgentState {
        self.state
    }

    pub closed spec fn spec_store(&self) -> Option<CheckpointStore> {
        self.checkpoint_store
    }

    pub closed spec fn spec_version(&self) -> u64 {
        self.checkpoint_version
    }

    pub closed spec fn spec_interval(&self) -> u64 {
        self.checkpoint_interval
    }

    pub closed spec fn spec_system_prompt(&self) -> Option<Seq<char>> {
        match self.system_prompt {
            Some(p) => Some(p@),
            None => None,
        }
    }

    /// A new idle agent with the default state, checkpointing every 10
    /// messages once a store is configured, and no system prompt.
    pub fn new(name: &str) -> (r: Self)
        ensures
            r.spec_id().name@ == name@,
            r.spec_state().short_term@.len() == 0,
            r.spec_state().short_term_capacity == 50,
            r.spec_state().phase == AgentPhase::Idle,
            r.spec_state().message_count == 0,
            r.spec_state().token_usage == 0,
            r.spec_store() is None,
            r.spec_version() == 0,
            r.spec_interval() == 10,
            r.spec_system_prompt() is None,
    {
        AgentActor {
            id: ActorId::new(name),
            state: AgentState::default(),
            checkpoint_store: None,
            checkpoint_version: 0,
            checkpoint_interval: 10,
            system_prompt: None,
        }
    }

    /// The agent with the given state.
    pub fn with_state(self, state: AgentState) -> (r: Self)
        ensures
            r.spec_state() == state,
            r.spec_id() == self.spec_id(),
            r.spec_store() == self.spec_store(),
            r.spec_version() == self.spec_version(),
            r.spec_interval() == self.spec_interval(),
            r.spec_system_prompt() == self.spec_system_prompt(),
    {
        AgentActor { state, ..self }
    }

    /// The agent with the given checkpoint store.
    pub fn with_checkpoint_store(self, store: CheckpointStore) -> (r: Self)
        ensures
            r.spec_store() == Some(store),
            r.spec_id() == self.spec_id(),
            r.spec_state() == self.spec_state(),
            r.spec_version() == self.spec_version(),
            r.spec_interval() == self.spec_interval(),
            r.spec_system_prompt() == self.spec_system_prompt(),
    {
        AgentActor { checkpoint_store: Some(store), ..self }
    }

    /// The agent checkpointing every `interval` messages.
    pub fn with_checkpoint_interval(self, interval: u64) -> (r: Self)
        ensures
            r.spec_interval() == interval,
            r.spec_id() == self.spec_id(),
            r.spec_state() == self.spec_state(),
            r.spec_store() == self.spec_store(),
            r.spec_version() == self.spec_version(),
            r.spec_system_prompt() == self.spec_system_prompt(),
    {
        AgentActor { checkpoint_interval: interval, ..self }
    }

    /// The agent with the given system prompt.
    pub fn with_system_prompt(self, prompt: &str) -> (r: Self)
        ensures
            r.spec_system_prompt() == Some(prompt@),
            r.spec_id() == self.spec_id(),
            r.spec_state() == self.spec_state(),
            r.spec_store() == self.spec_store(),
            r.spec_version() == self.spec_version(),
            r.spec_interval() == self.spec_interval(),
    {
        AgentActor { system_prompt: Some(String::from_str(prompt)), ..self }
    }

    /// The agent's state.
    pub fn state(&self) -> (r: &AgentState)
        ensures
            *r == self.spec_state(),
    {
        &self.state
    }

    /// The agent's name.
    pub fn name(&self) -> (r: &str)
        ensures
            r@ == self.spec_id().name@,
    {
        self.id.name.as_str()
    }

    /// The agent's identity.
    pub fn id(&self) -> (r: &ActorId)
        ensures
            *r == self.spec_id(),
    {
        &self.id
    }

    /// The version of the last checkpoint taken or restored.
    pub fn checkpoint_version(&self) -> (r: u64)
        ensures
            r == self.spec_version(),
    {
        self.checkpoint_version
    }

    /// The checkpoint store, if one is configured.
    pub fn checkpoint_store(&self) -> (r: Option<&CheckpointStore>)
        ensures
            match r {
                Some(s) => self.spec_store() == Some(*s),
                None => self.spec_store() is None,
            },
    {
        match &self.checkpoint_store {
            Some(s) => Some(s),
            None => None,
        }
    }

    /// The conversation to send to the model: the system prompt, then the
    /// short-term memory with each entry's role mapped to a model role.
    pub fn llm_context(&self) -> (r: Vec<LlmMessage>)
        ensures
            r@.map_values(|m: LlmMessage| (m.role, m.content@)) == llm_context(
                self.spec_system_prompt(),
                self.spec_state().short_term@,
            ),
    {
        let mut msgs: Vec<LlmMessage> = Vec::new();
        if let Some(sp) = &self.system_prompt {
            msgs.push(LlmMessage { role: LlmRole::System, content: sp.clone() });
        }
        let ghost head = msgs@.map_values(|m: LlmMessage| (m.role, m.content@));
        let ghost mems = self.state.short_term@;
        let ghost f = |m: MemoryEntry| (role_of(m.role@), m.content@);
        let mut i: usize = 0;
        assert(mems.subrange(0, 0).map_values(f) =~= Seq::<(LlmRole, Seq<char>)>::empty());
        assert(msgs@.map_values(|m: LlmMessage| (m.role, m.content@)) =~= head + mems.subrange(0, 0).map_values(f));
        while i < self.state.short_term.len()
            invariant
                i <= mems.len(),
                mems == self.state.short_term@,
                f == (|m: MemoryEntry| (role_of(m.role@), m.content@)),
                msgs@.map_values(|m: LlmMessage| (m.role, m.content@)) == head + mems.subrange(0, i as int).map_values(f),
            decreases mems.len() - i,
        {
            let mem = &self.state.short_term[i];
            let r = mem.role.as_str();
            let role = if str_eq(r, "user") {
                LlmRole::User
            } else if str_eq(r, "assistant") {
                LlmRole::Assistant
            } else if str_eq(r, "system") {
                LlmRole::System
            } else {
                LlmRole::User
            };
            let ghost prev = msgs@;
            msgs.push(LlmMessage { role, content: mem.content.clone() });
            proof {
                assert(role == role_of(mems[i as int].role@));
                assert(mems.subrange(0, i + 1).map_values(f) =~= mems.subrange(0, i as int).map_values(f).push(f(mems[i as int])));
                assert(msgs@.map_values(|m: LlmMessage| (m.role, m.content@)) =~= prev.map_values(|m: LlmMessage| (m.role, m.content@)).push(
                    (role, mems[i as int].content@),
                ));
            }
            i = i + 1;
        }
        proof {
            assert(mems.subrange(0, mems.len() as int) =~= mems);
            let sp = self.spec_system_prompt();
            match sp {
                Some(p) => {
                    assert(head =~= seq![(LlmRole::System, p)]);
                },
                None => {
                    assert(head =~= Seq::<(LlmRole, Seq<char>)>::empty());
                },
            }
        }
        msgs
    }

    /// Takes in a message. A user prompt moves the agent to `Thinking`,
    /// counts the message, records the prompt in short-term memory and asks
    /// for a model call on the resulting conversation. A tool result is
    /// recorded (tagged with the tool's name) and leaves the agent idle. A
    /// sub-agent request is recorded. The other messages only move the phase:
    /// an approval answer counts only while the agent awaits one.
    pub fn begin_message(&mut self, msg: AgentMessage) -> (r: AgentStep)
        requires
            msg is UserPrompt ==> old(self).spec_state().message_count < u64::MAX,
        ensures
            final(self).spec_id() == old(self).spec_id(),
            final(self).spec_store() == old(self).spec_store(),
            final(self).spec_version() == old(self).spec_version(),
            final(self).spec_interval() == old(self).spec_interval(),
            final(self).spec_system_prompt() == old(self).spec_system_prompt(),
            final(self).spec_state().phase == next_phase(old(self).spec_state().phase, msg),
            final(self).spec_state().short_term_capacity == old(self).spec_state().short_term_capacity,
            final(self).spec_state().long_term@ == old(self).spec_state().long_term@,
            final(self).spec_state().token_usage == old(self).spec_state().token_usage,
            match msg {
                AgentMessage::UserPrompt(p) => {
                    &&& final(self).spec_state().message_count == old(self).spec_state().message_count + 1
                    &&& appended_entry(
                        old(self).spec_state().short_term@,
                        final(self).spec_state().short_term@,
                        old(self).spec_state().short_term_capacity as nat,
                        "user"@,
                        p@,
                        None,
                    )
                    &&& r matches AgentStep::CallModel { prompt, context } && prompt@ == p@
                        && context@.map_values(|m: LlmMessage| (m.role, m.content@)) == llm_context(
                        old(self).spec_system_prompt(),
                        final(self).spec_state().short_term@,
                    )
                },
                AgentMessage::ToolResult { tool_name, output } => {
                    &&& r is Done
                    &&& final(self).spec_state().message_count == old(self).spec_state().message_count
                    &&& appended_entry(
                        old(self).spec_state().short_term@,
                        final(self).spec_state().short_term@,
                        old(self).spec_state().short_term_capacity as nat,
                        "tool"@,
                        output@,
                        Some(json_object_of("tool"@, tool_name@)),
                    )
                },
                AgentMessage::SpawnSubAgent { name, config } => {
                    &&& r is Done
                    &&& final(self).spec_state().message_count == old(self).spec_state().message_count
                    &&& appended_entry(
                        old(self).spec_state().short_term@,
                        final(self).spec_state().short_term@,
                        old(self).spec_state().short_term_capacity as nat,
                        "system"@,
                        "spawn sub-agent: "@ + name@,
                        Some(config),
                    )
                },
                _ => {
                    &&& r is Done
                    &&& final(self).spec_state().message_count == old(self).spec_state().message_count
                    &&& final(self).spec_state().short_term@ == old(self).spec_state().short_term@
                },
            },
    {
        match msg {
            AgentMessage::UserPrompt(prompt) => {
                self.state.phase = AgentPhase::Thinking;
                self.state.touch();
                self.state.message_count = self.state.message_count + 1;
                let entry = MemoryEntry::now("user", prompt.as_str(), None);
                self.state.push_short_term(entry);
                let context = self.llm_context();
                AgentStep::CallModel { prompt, context }
            },
            AgentMessage::ToolResult { tool_name, output } => {
                self.state.phase = AgentPhase::Thinking;
                self.state.touch();
                let tag = json_single_member("tool", tool_name.as_str());
                let entry = MemoryEntry::now("tool", output.as_str(), Some(tag));
                self.state.push_short_term(entry);
                self.state.phase = AgentPhase::Idle;
                AgentStep::Done
            },
            AgentMessage::StreamChunk(_) => {
                self.state.phase = AgentPhase::Streaming;
                AgentStep::Done
            },
            AgentMessage::StreamEnd => {
                self.state.phase = AgentPhase::Idle;
                AgentStep::Done
            },
            AgentMessage::RequestApproval { description: _ } => {
                self.state.phase = AgentPhase::AwaitingHuman;
                AgentStep::Done
            },
            AgentMessage::ApprovalResult { approved, comment: _ } => {
                if self.state.phase == AgentPhase::AwaitingHuman {
                    self.state.phase = if approved {
                        AgentPhase::Executing
                    } else {
                        AgentPhase::Idle
                    };
                }
                AgentStep::Done
            },
            AgentMessage::SpawnSubAgent { name, config } => {
                let mut content = String::from_str("spawn sub-agent: ");
                content.append(name.as_str());
                let entry = MemoryEntry::now("system", content.as_str(), Some(config));
                self.state.push_short_term(entry);
                AgentStep::Done
            },
        }
    }

    /// Records the model's reply to `prompt`, or, when there is none (no
    /// model, or the call failed), the echo `[echo] <prompt>`; adds the
    /// reported total tokens to the usage; returns the agent to `Idle`; and
    /// tells whether a checkpoint is due.
    pub fn finish_prompt(&mut self, prompt: &str, reply: Option<super::llm::LlmResponse>) -> (due: bool)
        requires
            reply matches Some(resp) ==> resp.total_tokens matches Some(t) ==> old(self).spec_state().token_usage
                + t <= u64::MAX,
        ensures
            final(self).spec_id() == old(self).spec_id(),
            final(self).spec_store() == old(self).spec_store(),
            final(self).spec_version() == old(self).spec_version(),
            final(self).spec_interval() == old(self).spec_interval(),
            final(self).spec_system_prompt() == old(self).spec_system_prompt(),
            final(self).spec_state().phase == AgentPhase::Idle,
            final(self).spec_state().message_count == old(self).spec_state().message_count,
            final(self).spec_state().short_term_capacity == old(self).spec_state().short_term_capacity,
            final(self).spec_state().long_term@ == old(self).spec_state().long_term@,
            final(self).spec_state().token_usage == old(self).spec_state().token_usage + match reply {
                Some(resp) => match resp.total_tokens {
                    Some(t) => t as int,
                    None => 0,
                },
                None => 0,
            },
            appended_entry(
                old(self).spec_state().short_term@,
                final(self).spec_state().short_term@,
                old(self).spec_state().short_term_capacity as nat,
                "assistant"@,
                match reply {
                    Some(resp) => resp.content@,
                    None => "[echo] "@ + prompt@,
                },
                None,
            ),
            due == checkpoint_due_spec(old(self).spec_state().message_count, old(self).spec_interval()),
    {
        let content = match reply {
            Some(resp) => {
                if let Some(t) = resp.total_tokens {
                    self.state.add_token_usage(t);
                }
                resp.content
            },
            None => {
                let mut s = String::from_str("[echo] ");
                s.append(prompt);
                s
            },
        };
        let entry = MemoryEntry::now("assistant", content.as_str(), None);
        self.state.push_short_term(entry);
        self.state.phase = AgentPhase::Idle;
        self.checkpoint_due()
    }

    /// Whether a checkpoint is due: the message count is a multiple of the
    /// interval.
    pub fn checkpoint_due(&self) -> (r: bool)
        ensures
            r == checkpoint_due_spec(self.spec_state().message_count, self.spec_interval()),
    {
        if self.checkpoint_interval == 0 {
            self.state.message_count == 0
        } else {
            self.state.message_count % self.checkpoint_interval == 0
        }
    }

    /// The next checkpoint, when a store is configured: the version is
    /// advanced by one and the snapshot holds the current state. Without a
    /// store, `None` and no change.
    pub fn next_checkpoint(&mut self) -> (r: Option<Checkpoint>)
        requires
            old(self).spec_store() is Some ==> old(self).spec_version() < u64::MAX,
        ensures
            final(self).spec_id() == old(self).spec_id(),
            final(self).spec_state() == old(self).spec_state(),
            final(self).spec_store() == old(self).spec_store(),
            final(self).spec_interval() == old(self).spec_interval(),
            final(self).spec_system_prompt() == old(self).spec_system_prompt(),
            old(self).spec_store() is None ==> r is None && final(self).spec_version() == old(self).spec_version(),
            old(self).spec_store() is Some ==> final(self).spec_version() == old(self).spec_version() + 1 && (r matches Some(cp) && {
                &&& cp.version == final(self).spec_version()
                &&& cp.actor_id == old(self).spec_id()
                &&& cp.state.short_term@ == old(self).spec_state().short_term@
                &&& cp.state.short_term_capacity == old(self).spec_state().short_term_capacity
                &&& cp.state.long_term@ == old(self).spec_state().long_term@
                &&& cp.state.phase == old(self).spec_state().phase
                &&& cp.state.last_active == old(self).spec_state().last_active
                &&& cp.state.message_count == old(self).spec_state().message_count
                &&& cp.state.token_usage == old(self).spec_state().token_usage
            }),
    {
        if self.checkpoint_store.is_none() {
            return None;
        }
        self.checkpoint_version = self.checkpoint_version + 1;
        Some(
            Checkpoint {
                actor_id: self.id.clone(),
                timestamp: current_time(),
                state: self.state.clone(),
                version: self.checkpoint_version,
            },
        )
    }

    /// Takes over the state and version of a checkpoint, as on a restart.
    pub fn restore(&mut self, checkpoint: Checkpoint)
        ensures
            final(self).spec_state() == checkpoint.state,
            final(self).spec_version() == checkpoint.version,
            final(self).spec_id() == old(self).spec_id(),
            final(self).spec_store() == old(self).spec_store(),
            final(self).spec_interval() == old(self).spec_interval(),
            final(self).spec_system_prompt() == old(self).spec_system_prompt(),
    {
        self.state = checkpoint.state;
        self.checkpoint_version = checkpoint.version;
    }
}

/// An approval request followed by an answer: approval leads to
/// `Executing`, refusal back to `Idle`, from whatever phase the request
/// came in.
pub proof fn lemma_approval_round_trip(phase: AgentPhase, description: String, approved: bool, comment: Option<String>)
    ensures
        next_phase(
            next_phase(phase, AgentMessage::RequestApproval { description }),
            AgentMessage::ApprovalResult { approved, comment },
        ) == if approved {
            AgentPhase::Executing
        } else {
            AgentPhase::Idle
        },
{
}

/// An approval answer that arrives while no approval is awaited changes
/// nothing.
pub proof fn lemma_stray_approval_ignored(phase: AgentPhase, approved: bool, comment: Option<String>)
    requires
        phase != AgentPhase::AwaitingHuman,
    ensures
        next_phase(phase, AgentMessage::ApprovalResult { approved, comment }) == phase,
{
}

/// A stream leaves the agent idle once it ends, whatever came before.
pub proof fn lemma_stream_ends_idle(phase: AgentPhase, chunk: String)
    ensures
        next_phase(next_phase(phase, AgentMessage::StreamChunk(chunk)), AgentMessage::StreamEnd) == AgentPhase::Idle,
{
}

/// A tool result always leaves the agent idle, whatever phase it was in; a
/// user prompt always leaves it thinking until the reply is recorded.
pub proof fn lemma_tool_result_ends_idle(phase: AgentPhase, tool_name: String, output: String, prompt: String)
    ensures
        next_phase(phase, AgentMessage::ToolResult { tool_name, output }) == AgentPhase::Idle,
        next_phase(phase, AgentMessage::UserPrompt(prompt)) == AgentPhase::Thinking,
{
}

/// The conversation sent to the model: the system prompt (if any) with the
/// System role, then each short-term memory entry in order, with its
/// content, and with the System role when its role is `system`, the
/// Assistant role when it is `assistant`, and the User role otherwise.
pub proof fn lemma_context_roles(system_prompt: Option<Seq<char>>, memories: Seq<MemoryEntry>, i: int)
    requires
        0 <= i < memories.len(),
    ensures
        ({
            let ctx = llm_context(system_prompt, memories);
            let off: int = if system_prompt is Some { 1 } else { 0 };
            &&& ctx.len() == off + memories.len()
            &&& system_prompt matches Some(p) ==> ctx[0] == (LlmRole::System, p)
            &&& ctx[off + i].1 == memories[i].content@
            &&& (ctx[off + i].0 == LlmRole::System) <==> memories[i].role@ == "system"@
            &&& (ctx[off + i].0 == LlmRole::Assistant) <==> memories[i].role@ == "assistant"@
            &&& (ctx[off + i].0 == LlmRole::User) <==> (memories[i].role@ != "system"@ && memories[i].role@
                != "assistant"@)
        }),
{
    reveal_strlit("user");
    reveal_strlit("assistant");
    reveal_strlit("system");
    let ctx = llm_context(system_prompt, memories);
    let off: int = if system_prompt is Some { 1 } else { 0 };
    assert(ctx[off + i] == (role_of(memories[i].role@), memories[i].content@));
    assert("user"@ != "system"@ && "user"@ != "assistant"@ && "system"@ != "assistant"@) by {
        assert("user"@[0] != "system"@[0]);
        assert("user"@[0] != "assistant"@[0]);
        assert("system"@[0] != "assistant"@[0]);
    }
}

/// What each message does to the agent's phase: a stream chunk makes it
/// streaming, an approval request makes it await a human, a sub-agent
/// request leaves it where it was, and an answer to an awaited approval
/// moves it to executing when approved and back to idle when refused.
pub proof fn lemma_phase_changes(phase: AgentPhase, chunk: String, description: String, name: String, config: serde_json::Value, approved: bool, comment: Option<String>)
    ensures
        next_phase(phase, AgentMessage::StreamChunk(chunk)) == AgentPhase::Streaming,
        next_phase(phase, AgentMessage::StreamEnd) == AgentPhase::Idle,
        next_phase(phase, AgentMessage::RequestApproval { description }) == AgentPhase::AwaitingHuman,
        next_phase(phase, AgentMessage::SpawnSubAgent { name, config }) == phase,
        phase == AgentPhase::AwaitingHuman ==> next_phase(phase, AgentMessage::ApprovalResult { approved, comment })
            == if approved {
            AgentPhase::Executing
        } else {
            AgentPhase::Idle
        },
{
}

} // verus!
