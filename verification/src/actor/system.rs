//! The actor registry of an actor system: which actors exist, their status,
//! and the messages held for hibernated actors.
//!
//! Running actors (tasks, mailboxes) is the caller's part; this registry
//! records what the runtime does and decides what hibernation and thawing
//! may do.
use std::collections::VecDeque;
use std::sync::Arc;
use vstd::prelude::*;
use super::actor::ActorStatus;
use super::address::ActorRef;
use super::message::{ActorId, Envelope};
use crate::environment::Environment;
use crate::keyed::{IdKey, Keyed, seq_map};

verus! {

/// Why a hibernation or a thaw was refused.
#[derive(Debug, Clone, Copy, PartialEq, Eq, Structural)]
pub enum SystemError {
    /// Only a running actor can be hibernated; this is its status.
    CannotHibernate(Option<ActorStatus>),
    /// Only a hibernated actor can be thawed; this is its status.
    CannotThaw(Option<ActorStatus>),
}

/// What a caller does after asking to hibernate an actor.
#[derive(Debug, Clone, Copy, PartialEq, Eq, Structural)]
pub enum HibernateStep {
    /// Send the actor `Stop`, then call `finish_hibernate`.
    StopActor,
    /// Nothing: the actor is already hibernated.
    AlreadyHibernated,
}

/// The number of entries of `s` whose actor is running.
pub open spec fn running_count(s: Seq<(ActorId, ActorStatus)>) -> nat
    decreases s.len(),
{
    if s.len() == 0 {
        0
    } else {
        running_count(s.drop_last()) + if s.last().1 == ActorStatus::Running {
            1nat
        } else {
            0nat
        }
    }
}

/// The first position in `s` whose actor has the given name.
pub open spec fn first_named<P>(s: Seq<(ActorId, ActorRef<P>)>, name: Seq<char>, i: int) -> bool {
    &&& 0 <= i < s.len()
    &&& s[i].1.id.name@ == name
    &&& forall|j: int| 0 <= j < i ==> s[j].1.id.name@ != name
}

/// The held messages after one more message for `id`: appended to its
/// queue when it has one, dropped otherwise.
pub open spec fn hold<P>(pending: Map<IdKey, Seq<Envelope<P>>>, id: IdKey, e: Envelope<P>) -> Map<IdKey, Seq<Envelope<P>>> {
    if pending.contains_key(id) {
        pending.insert(id, pending[id].push(e))
    } else {
        pending
    }
}

/// The held messages after each of `msgs`, in order, is held for `id`.
pub open spec fn hold_all<P>(pending: Map<IdKey, Seq<Envelope<P>>>, id: IdKey, msgs: Seq<Envelope<P>>) -> Map<IdKey, Seq<Envelope<P>>>
    decreases msgs.len(),
{
    if msgs.len() == 0 {
        pending
    } else {
        hold(hold_all(pending, id, msgs.drop_last()), id, msgs.last())
    }
}

/// The actor registry of a system.
#[verifier::reject_recursive_types(P)]
pub struct ActorSystem<P> {
    name: String,
    actors: Keyed<ActorRef<P>>,
    statuses: Keyed<ActorStatus>,
    environment: Arc<Environment>,
    pending_messages: Keyed<VecDeque<Envelope<P>>>,
}

impl<P> ActorSystem<P> {
    /// The registered actors' references, by identity, in registration order.
    pub closed spec fn entries(&self) -> Seq<(ActorId, ActorRef<P>)> {
        self.actors.entries()
    }

    /// The registered actors' statuses, by identity.
    pub closed spec fn status_entries(&self) -> Seq<(ActorId, ActorStatus)> {
        self.statuses.entries()
    }

    /// The registered actors' references, by identity.
    pub open spec fn refs(&self) -> Map<IdKey, ActorRef<P>> {
        seq_map(self.entries())
    }

    /// The registered actors' statuses, by identity.
    pub open spec fn statuses(&self) -> Map<IdKey, ActorStatus> {
        seq_map(self.status_entries())
    }

    /// The messages held for hibernated actors, by identity.
    pub closed spec fn pending_map(&self) -> Map<IdKey, Seq<Envelope<P>>> {
        self.pending_messages.map().map_values(|q: VecDeque<Envelope<P>>| q@)
    }

    /// The system's name.
    pub closed spec fn spec_name(&self) -> Seq<char> {
        self.name@
    }

    /// The shared environment.
    pub closed spec fn spec_environment(&self) -> Environment {
        *self.environment
    }

    /// The invariant.
    pub closed spec fn wf(&self) -> bool {
        &&& self.actors.wf()
        &&& self.statuses.wf()
        &&& self.pending_messages.wf()
        &&& self.actors.map().dom() == self.statuses.map().dom()
        &&& forall|k: IdKey| #[trigger] self.actors.map().contains_key(k) ==> self.actors.map()[k].id@ == k
    }

    /// An empty system with an empty environment.
    pub fn new(name: &str) -> (r: Self)
        ensures
            r.wf(),
            r.refs() == Map::<IdKey, ActorRef<P>>::empty(),
            r.statuses() == Map::<IdKey, ActorStatus>::empty(),
            r.spec_name() == name@,
            r.entries() == Seq::<(ActorId, ActorRef<P>)>::empty(),
            r.status_entries() == Seq::<(ActorId, ActorStatus)>::empty(),
            r.pending_map() == Map::<IdKey, Seq<Envelope<P>>>::empty(),
    {
        Self::with_environment(name, Environment::new())
    }

    /// An empty system with the given environment.
    pub fn with_environment(name: &str, env: Environment) -> (r: Self)
        ensures
            r.wf(),
            r.refs() == Map::<IdKey, ActorRef<P>>::empty(),
            r.statuses() == Map::<IdKey, ActorStatus>::empty(),
            r.spec_name() == name@,
            r.spec_environment() == env,
            r.entries() == Seq::<(ActorId, ActorRef<P>)>::empty(),
            r.status_entries() == Seq::<(ActorId, ActorStatus)>::empty(),
            r.pending_map() == Map::<IdKey, Seq<Envelope<P>>>::empty(),
    {
        let r = ActorSystem {
            name: String::from_str(name),
            actors: Keyed::new(),
            statuses: Keyed::new(),
            environment: Arc::new(env),
            pending_messages: Keyed::new(),
        };
        assert(r.pending_map() =~= Map::<IdKey, Seq<Envelope<P>>>::empty());
        r
    }

    /// The system's name.
    pub fn name(&self) -> (r: &str)
        ensures
            r@ == self.spec_name(),
    {
        self.name.as_str()
    }

    /// The shared environment.
    pub fn environment(&self) -> (r: &Arc<Environment>)
        ensures
            **r == self.spec_environment(),
    {
        &self.environment
    }

    /// Registers a newly spawned actor as `Starting`, replacing any entry
    /// with the same identity.
    pub fn register(&mut self, actor_ref: ActorRef<P>)
        requires
            old(self).wf(),
        ensures
            final(self).wf(),
            final(self).refs() == old(self).refs().insert(actor_ref.id@, actor_ref),
            final(self).statuses() == old(self).statuses().insert(actor_ref.id@, ActorStatus::Starting),
            final(self).pending_map() == old(self).pending_map(),
    {
        let key = actor_ref.id.clone();
        self.statuses.insert(key, ActorStatus::Starting);
        let key = actor_ref.id.clone();
        self.actors.insert(key, actor_ref);
    }

    /// Records a new status for a registered actor; an unknown identity
    /// changes nothing.
    pub fn set_status(&mut self, id: &ActorId, status: ActorStatus)
        requires
            old(self).wf(),
        ensures
            final(self).wf(),
            final(self).refs() == old(self).refs(),
            old(self).statuses().contains_key(id@) ==> final(self).statuses() == old(self).statuses().insert(id@, status),
            !old(self).statuses().contains_key(id@) ==> final(self).statuses() == old(self).statuses(),
            final(self).pending_map() == old(self).pending_map(),
    {
        if self.statuses.get(id).is_some() {
            self.statuses.insert(id.clone(), status);
            proof {
                assert(self.statuses.map().dom() =~= old(self).statuses.map().dom());
            }
        }
    }

    /// The reference of the actor with this identity, if registered.
    pub fn find(&self, id: &ActorId) -> (r: Option<ActorRef<P>>)
        requires
            self.wf(),
        ensures
            match r {
                Some(a) => self.refs().contains_key(id@) && a == self.refs()[id@],
                None => !self.refs().contains_key(id@),
            },
    {
        match self.actors.get(id) {
            Some(a) => Some(a.clone()),
            None => None,
        }
    }

    /// The reference of the first registered actor with this name; `None`
    /// exactly when no registered actor has it.
    pub fn find_by_name(&self, name: &str) -> (r: Option<ActorRef<P>>)
        requires
            self.wf(),
        ensures
            match r {
                Some(a) => {
                    &&& exists|i: int| first_named(self.entries(), name@, i) && a == self.entries()[i].1
                    &&& self.refs().contains_key(a.id@)
                    &&& self.refs()[a.id@] == a
                    &&& a.id.name@ == name@
                },
                None => {
                    &&& forall|j: int| 0 <= j < self.entries().len() ==> self.entries()[j].1.id.name@ != name@
                    &&& forall|k: IdKey| #[trigger] self.refs().contains_key(k) ==> self.refs()[k].id.name@ != name@
                },
            },
    {
        let items = self.actors.as_slice();
        let mut i: usize = 0;
        while i < items.len()
            invariant
                self.wf(),
                i <= items@.len(),
                items@ == self.entries(),
                forall|j: int| 0 <= j < i ==> items@[j].1.id.name@ != name@,
            decreases items@.len() - i,
        {
            if crate::text::str_eq(items[i].1.id.name.as_str(), name) {
                let a = items[i].1.clone();
                assert(first_named(self.entries(), name@, i as int));
                proof {
                    crate::keyed::lemma_seq_map_at(self.entries(), i as int);
                    assert(self.refs().contains_key(self.entries()[i as int].0@));
                    assert(a.id@ == self.entries()[i as int].0@);
                }
                return Some(a);
            }
            i = i + 1;
        }
        proof {
            assert forall|k: IdKey| #[trigger] self.refs().contains_key(k) implies self.refs()[k].id.name@ != name@ by {
                let j = crate::keyed::key_index(self.entries(), k);
                assert(0 <= j < self.entries().len());
                assert(self.refs()[k] == self.entries()[j].1);
            }
        }
        None
    }

    /// The status of the actor with this identity, if registered.
    pub fn status(&self, id: &ActorId) -> (r: Option<ActorStatus>)
        requires
            self.wf(),
        ensures
            match r {
                Some(s) => self.statuses().contains_key(id@) && s == self.statuses()[id@],
                None => !self.statuses().contains_key(id@),
            },
    {
        match self.statuses.get(id) {
            Some(s) => Some(*s),
            None => None,
        }
    }

    /// The number of running actors.
    pub fn actor_count(&self) -> (r: usize)
        requires
            self.wf(),
        ensures
            r == running_count(self.status_entries()),
    {
        let items = self.statuses.as_slice();
        let mut count: usize = 0;
        let mut i: usize = 0;
        assert(items@.subrange(0, 0) =~= Seq::<(ActorId, ActorStatus)>::empty());
        while i < items.len()
            invariant
                i <= items@.len(),
                items@ == self.status_entries(),
                count == running_count(items@.subrange(0, i as int)),
                count <= i,
            decreases items@.len() - i,
        {
            assert(items@.subrange(0, i + 1).drop_last() =~= items@.subrange(0, i as int));
            if items[i].1 == ActorStatus::Running {
                count = count + 1;
            }
            i = i + 1;
        }
        assert(items@.subrange(0, items@.len() as int) =~= items@);
        count
    }

    /// The references of all registered actors, in registration order.
    pub fn actor_refs(&self) -> (r: Vec<ActorRef<P>>)
        requires
            self.wf(),
        ensures
            r@.len() == self.entries().len(),
            forall|i: int| 0 <= i < r@.len() ==> #[trigger] r@[i] == self.entries()[i].1,
    {
        let items = self.actors.as_slice();
        let mut out: Vec<ActorRef<P>> = Vec::new();
        let mut i: usize = 0;
        while i < items.len()
            invariant
                i <= items@.len(),
                items@ == self.entries(),
                out@.len() == i,
                forall|j: int| 0 <= j < i ==> #[trigger] out@[j] == items@[j].1,
            decreases items@.len() - i,
        {
            out.push(items[i].1.clone());
            i = i + 1;
        }
        out
    }

    /// Starts hibernating an actor. A running actor gets a queue for the
    /// messages sent to it while it sleeps (kept if it already has one) and
    /// must then be stopped; a hibernated one needs nothing; any other
    /// status refuses.
    pub fn begin_hibernate(&mut self, id: &ActorId) -> (r: Result<HibernateStep, SystemError>)
        requires
            old(self).wf(),
        ensures
            final(self).wf(),
            final(self).refs() == old(self).refs() && final(self).statuses() == old(self).statuses(),
            match r {
                Ok(HibernateStep::StopActor) => {
                    &&& old(self).statuses().contains_key(id@)
                    &&& old(self).statuses()[id@] == ActorStatus::Running
                    &&& final(self).pending_map() == if old(self).pending_map().contains_key(id@) {
                        old(self).pending_map()
                    } else {
                        old(self).pending_map().insert(id@, Seq::empty())
                    }
                },
                Ok(HibernateStep::AlreadyHibernated) => {
                    &&& old(self).statuses().contains_key(id@)
                    &&& old(self).statuses()[id@] == ActorStatus::Hibernated
                    &&& final(self).pending_map() == old(self).pending_map()
                },
                Err(e) => {
                    &&& final(self).pending_map() == old(self).pending_map()
                    &&& e == SystemError::CannotHibernate(
                        if old(self).statuses().contains_key(id@) {
                            Some(old(self).statuses()[id@])
                        } else {
                            None
                        },
                    )
                    &&& !(old(self).statuses().contains_key(id@) && (old(self).statuses()[id@]
                        == ActorStatus::Running || old(self).statuses()[id@] == ActorStatus::Hibernated))
                },
            },
    {
        let status = self.status(id);
        match status {
            Some(ActorStatus::Running) => {
                if self.pending_messages.get(id).is_none() {
                    let ghost before = self.pending_messages.map();
                    self.pending_messages.insert(id.clone(), VecDeque::new());
                    proof {
                        assert(self.pending_map() =~= old(self).pending_map().insert(id@, Seq::empty()));
                    }
                }
                Ok(HibernateStep::StopActor)
            },
            Some(ActorStatus::Hibernated) => Ok(HibernateStep::AlreadyHibernated),
            _ => Err(SystemError::CannotHibernate(status)),
        }
    }

    /// Completes a hibernation once the actor has been asked to stop: an
    /// actor that has stopped is marked `Hibernated`; otherwise nothing
    /// changes.
    pub fn finish_hibernate(&mut self, id: &ActorId)
        requires
            old(self).wf(),
        ensures
            final(self).wf(),
            final(self).pending_map() == old(self).pending_map(),
            final(self).refs() == old(self).refs(),
            (old(self).statuses().contains_key(id@) && old(self).statuses()[id@]
                == ActorStatus::Stopped) ==> final(self).statuses() == old(self).statuses().insert(id@, ActorStatus::Hibernated),
            !(old(self).statuses().contains_key(id@) && old(self).statuses()[id@]
                == ActorStatus::Stopped) ==> final(self).refs() == old(self).refs() && final(self).statuses() == old(self).statuses(),
    {
        if self.status(id) == Some(ActorStatus::Stopped) {
            self.set_status(id, ActorStatus::Hibernated);
        }
    }

    /// Starts thawing a hibernated actor: its entry is removed (the caller
    /// spawns the restored actor) and the messages held for it are handed
    /// back, oldest first, for replay. Any other status refuses.
    pub fn begin_thaw(&mut self, id: &ActorId) -> (r: Result<VecDeque<Envelope<P>>, SystemError>)
        requires
            old(self).wf(),
        ensures
            final(self).wf(),
            match r {
                Ok(messages) => {
                    &&& old(self).statuses().contains_key(id@)
                    &&& old(self).statuses()[id@] == ActorStatus::Hibernated
                    &&& final(self).refs() == old(self).refs().remove(id@)
                    &&& final(self).statuses() == old(self).statuses().remove(id@)
                    &&& final(self).pending_map() == old(self).pending_map().remove(id@)
                    &&& messages@ == if old(self).pending_map().contains_key(id@) {
                        old(self).pending_map()[id@]
                    } else {
                        Seq::empty()
                    }
                },
                Err(e) => {
                    &&& final(self).refs() == old(self).refs() && final(self).statuses() == old(self).statuses()
                    &&& final(self).pending_map() == old(self).pending_map()
                    &&& e == SystemError::CannotThaw(
                        if old(self).statuses().contains_key(id@) {
                            Some(old(self).statuses()[id@])
                        } else {
                            None
                        },
                    )
                    &&& !(old(self).statuses().contains_key(id@) && old(self).statuses()[id@]
                        == ActorStatus::Hibernated)
                },
            },
    {
        let status = self.status(id);
        if status != Some(ActorStatus::Hibernated) {
            return Err(SystemError::CannotThaw(status));
        }
        self.actors.remove(id);
        self.statuses.remove(id);
        proof {
            assert(self.actors.map().dom() =~= self.statuses.map().dom());
        }
        let ghost before = self.pending_messages.map();
        let messages = match self.pending_messages.remove(id) {
            Some(q) => q,
            None => VecDeque::new(),
        };
        proof {
            assert(self.pending_map() =~= old(self).pending_map().remove(id@));
        }
        Ok(messages)
    }

    /// Holds a message for an actor that is being or has been hibernated;
    /// `false`, and the message is dropped, when the actor has no queue.
    pub fn buffer_message(&mut self, id: &ActorId, envelope: Envelope<P>) -> (r: bool)
        requires
            old(self).wf(),
        ensures
            final(self).wf(),
            final(self).refs() == old(self).refs() && final(self).statuses() == old(self).statuses(),
            r == old(self).pending_map().contains_key(id@),
            final(self).pending_map() == hold(old(self).pending_map(), id@, envelope),
    {
        match self.pending_messages.remove(id) {
            Some(mut q) => {
                q.push_back(envelope);
                self.pending_messages.insert(id.clone(), q);
                proof {
                    assert(self.pending_map() =~= old(self).pending_map().insert(
                        id@,
                        old(self).pending_map()[id@].push(envelope),
                    ));
                }
                true
            },
            None => false,
        }
    }

    /// The number of messages held for an actor.
    pub fn pending_message_count(&self, id: &ActorId) -> (r: usize)
        requires
            self.wf(),
        ensures
            r == if self.pending_map().contains_key(id@) {
                self.pending_map()[id@].len()
            } else {
                0
            },
    {
        match self.pending_messages.get(id) {
            Some(q) => q.len(),
            None => 0,
        }
    }
}

/// Messages held for an actor with a queue are kept in the order they
/// came, after what was held before, and the queues of other actors are
/// untouched; `begin_thaw` hands the queue back for replay.
pub proof fn lemma_held_in_order<P>(pending: Map<IdKey, Seq<Envelope<P>>>, id: IdKey, msgs: Seq<Envelope<P>>)
    requires
        pending.contains_key(id),
    ensures
        hold_all(pending, id, msgs).contains_key(id),
        hold_all(pending, id, msgs)[id] == pending[id] + msgs,
        forall|other: IdKey|
            other != id ==> (#[trigger] hold_all(pending, id, msgs).contains_key(other)) == pending.contains_key(other)
                && (pending.contains_key(other) ==> hold_all(pending, id, msgs)[other] == pending[other]),
    decreases msgs.len(),
{
    if msgs.len() > 0 {
        lemma_held_in_order(pending, id, msgs.drop_last());
        assert(pending[id] + msgs.drop_last().push(msgs.last()) =~= pending[id] + msgs);
        assert(msgs.drop_last().push(msgs.last()) =~= msgs);
    } else {
        assert(pending[id] + msgs =~= pending[id]);
    }
}

} // verus!
