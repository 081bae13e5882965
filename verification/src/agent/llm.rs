//! The message types exchanged between an agent and a language model.
use vstd::prelude::*;

verus! {

/// The author of a message in a model conversation.
#[derive(Debug, Clone, Copy, PartialEq, Eq, Structural)]
pub enum LlmRole {
    System,
    User,
    Assistant,
    Tool,
}

impl LlmRole {
    /// The role a provider is sent: tool output goes as the user's.
    pub fn provider_role(&self) -> (r: LlmRole)
        ensures
            r == (if *self == LlmRole::Tool {
                LlmRole::User
            } else {
                *self
            }),
    {
        match self {
            LlmRole::Tool => LlmRole::User,
            other => *other,
        }
    }
}

/// One message of a model conversation.
#[derive(Debug)]
pub struct LlmMessage {
    pub role: LlmRole,
    pub content: String,
}

impl Clone for LlmMessage {
    fn clone(&self) -> (r: Self)
        ensures
            r == *self,
    {
        LlmMessage { role: self.role, content: self.content.clone() }
    }
}

impl LlmMessage {
    /// A system message.
    pub fn system(content: &str) -> (r: Self)
        ensures
            r.role == LlmRole::System,
            r.content@ == content@,
    {
        LlmMessage { role: LlmRole::System, content: String::from_str(content) }
    }

    /// A user message.
    pub fn user(content: &str) -> (r: Self)
        ensures
            r.role == LlmRole::User,
            r.content@ == content@,
    {
        LlmMessage { role: LlmRole::User, content: String::from_str(content) }
    }

    /// An assistant message.
    pub fn assistant(content: &str) -> (r: Self)
        ensures
            r.role == LlmRole::Assistant,
            r.content@ == content@,
    {
        LlmMessage { role: LlmRole::Assistant, content: String::from_str(content) }
    }
}

/// The result of a model call: the content and the token counts the
/// provider reported, if any.
#[derive(Debug)]
pub struct LlmResponse {
    pub content: String,
    pub prompt_tokens: Option<u64>,
    pub completion_tokens: Option<u64>,
    pub total_tokens: Option<u64>,
}

} // verus!
