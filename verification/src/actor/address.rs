//! Actor references: handles through which messages reach an actor.
use vstd::prelude::*;
use super::mailbox::{MailboxSendError, MailboxSender};
use super::message::{ActorId, Envelope, id_text};

verus! {

/// A handle for sending messages to an actor: its identity and its
/// mailbox's sending half.
#[verifier::reject_recursive_types(P)]
pub struct ActorRef<P> {
    pub id: ActorId,
    pub sender: MailboxSender<P>,
}

impl<P> Clone for ActorRef<P> {
    /// Another reference to the same actor and mailbox.
    fn clone(&self) -> (r: Self)
        ensures
            r == *self,
    {
        ActorRef { id: self.id.clone(), sender: self.sender.clone() }
    }
}

impl<P> ActorRef<P> {
    /// A reference to the actor `id` whose mailbox is behind `sender`.
    pub fn new(id: ActorId, sender: MailboxSender<P>) -> (r: Self)
        ensures
            r.id == id,
            r.sender == sender,
    {
        ActorRef { id, sender }
    }

    /// The identity of the actor.
    pub fn id(&self) -> (r: &ActorId)
        ensures
            *r == self.id,
    {
        &self.id
    }

    /// Sends a message without waiting, in a new envelope with no sender;
    /// fails when the mailbox is full or gone.
    pub fn try_tell(&self, payload: P) -> Result<(), MailboxSendError> {
        let envelope = Envelope::new(payload, None);
        self.sender.try_send(envelope)
    }

    /// Whether the actor has stopped (its mailbox is gone).
    pub fn is_stopped(&self) -> bool {
        self.sender.is_closed()
    }

    /// The human-readable form, `ActorRef(name(xxxxxxxx))`.
    pub fn describe(&self) -> (s: String)
        ensures
            s@ == "ActorRef("@ + id_text(self.id@) + ")"@,
    {
        let mut s = String::from_str("ActorRef(");
        let inner = self.id.describe();
        s.append(inner.as_str());
        s.append(")");
        s
    }
}

} // verus!
