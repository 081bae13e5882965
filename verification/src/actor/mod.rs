//! The actor layer: identities and envelopes, mailboxes, failure
//! classification, actor references, contexts and the actor registry.
pub mod actor;
pub mod address;
pub mod context;
pub mod failure;
pub mod mailbox;
pub mod message;
pub mod system;

pub use actor::ActorStatus;
pub use address::ActorRef;
pub use context::ActorContext;
pub use failure::{AgentError, FailureKind};
pub use mailbox::{DeadLetter, Mailbox, MailboxSendError, MailboxSender};
pub use message::{ActorId, Envelope, SystemMessage};
pub use system::ActorSystem;
