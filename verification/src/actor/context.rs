//! The runtime context handed to an actor while it handles a message.
use std::sync::Arc;
use vstd::prelude::*;
use crate::environment::Environment;
use crate::keyed::{IdKey, Keyed};
use super::address::ActorRef;
use super::message::ActorId;

verus! {

/// What an actor can reach while it runs: its own identity and reference,
/// its children (by identity), and the shared environment.
#[verifier::reject_recursive_types(P)]
pub struct ActorContext<P> {
    self_id: ActorId,
    self_ref: ActorRef<P>,
    children: Keyed<ActorRef<P>>,
    environment: Arc<Environment>,
}

impl<P> ActorContext<P> {
    /// The actor's own identity.
    pub closed spec fn spec_self_id(&self) -> ActorId {
        self.self_id
    }

    /// The actor's own reference.
    pub closed spec fn spec_self_ref(&self) -> ActorRef<P> {
        self.self_ref
    }

    /// The children, by identity.
    pub closed spec fn spec_children(&self) -> Map<IdKey, ActorRef<P>> {
        self.children.map()
    }

    /// The shared environment.
    pub closed spec fn spec_environment(&self) -> Environment {
        *self.environment
    }

    /// The invariant.
    pub closed spec fn wf(&self) -> bool {
        self.children.wf()
    }

    /// A context for the actor `self_id`, with no children.
    pub fn new(self_id: ActorId, self_ref: ActorRef<P>, environment: Arc<Environment>) -> (r: Self)
        ensures
            r.wf(),
            r.spec_self_id() == self_id,
            r.spec_self_ref() == self_ref,
            r.spec_children() == Map::<IdKey, ActorRef<P>>::empty(),
            r.spec_environment() == *environment,
    {
        ActorContext { self_id, self_ref, children: Keyed::new(), environment }
    }

    /// The actor's own identity.
    pub fn self_id(&self) -> (r: &ActorId)
        ensures
            *r == self.spec_self_id(),
    {
        &self.self_id
    }

    /// The actor's own reference, to hand to others for replies.
    pub fn self_ref(&self) -> (r: &ActorRef<P>)
        ensures
            *r == self.spec_self_ref(),
    {
        &self.self_ref
    }

    /// The reference of the child with this identity, if it is registered.
    pub fn child(&self, id: &ActorId) -> (r: Option<&ActorRef<P>>)
        requires
            self.wf(),
        ensures
            match r {
                Some(c) => self.spec_children().contains_key(id@) && *c == self.spec_children()[id@],
                None => !self.spec_children().contains_key(id@),
            },
    {
        self.children.get(id)
    }

    /// The children, in the order they were registered.
    pub fn children(&self) -> (r: &[(ActorId, ActorRef<P>)])
        requires
            self.wf(),
        ensures
            crate::keyed::seq_map(r@) == self.spec_children(),
    {
        self.children.as_slice()
    }

    /// Registers a child, replacing any child registered with the same identity.
    pub fn register_child(&mut self, id: ActorId, actor_ref: ActorRef<P>)
        requires
            old(self).wf(),
        ensures
            final(self).wf(),
            final(self).spec_children() == old(self).spec_children().insert(id@, actor_ref),
            final(self).spec_self_id() == old(self).spec_self_id(),
            final(self).spec_self_ref() == old(self).spec_self_ref(),
            final(self).spec_environment() == old(self).spec_environment(),
    {
        self.children.insert(id, actor_ref);
    }

    /// Unregisters a child and returns its reference, if it was registered.
    pub fn remove_child(&mut self, id: &ActorId) -> (r: Option<ActorRef<P>>)
        requires
            old(self).wf(),
        ensures
            final(self).wf(),
            final(self).spec_children() == old(self).spec_children().remove(id@),
            match r {
                Some(c) => old(self).spec_children().contains_key(id@) && c == old(self).spec_children()[id@],
                None => !old(self).spec_children().contains_key(id@),
            },
            final(self).spec_self_id() == old(self).spec_self_id(),
            final(self).spec_self_ref() == old(self).spec_self_ref(),
            final(self).spec_environment() == old(self).spec_environment(),
    {
        self.children.remove(id)
    }

    /// The shared environment.
    pub fn environment(&self) -> (r: &Environment)
        ensures
            *r == self.spec_environment(),
    {
        &self.environment
    }
}

} // verus!
