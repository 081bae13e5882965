//! The supervisor: decides what becomes of a failed child from the failure's
//! classification, falling back on its strategy.
use vstd::prelude::*;
use super::strategy::{SupervisionDecision, SupervisionStrategy};
use crate::actor::context::ActorContext;
use crate::actor::failure::FailureKind;
use crate::actor::message::ActorId;
use crate::keyed::{IdKey, Keyed};

verus! {

/// Messages a supervisor receives.
#[derive(Debug)]
pub enum SupervisorMessage {
    /// A child reports a failure, classified when `failure_kind` is given.
    ChildFailed { child_id: ActorId, error: String, failure_kind: Option<FailureKind>, retry_count: u32 },
    /// A child has stopped.
    ChildStopped { child_id: ActorId },
    /// A request to list the children.
    QueryChildren,
}

impl Clone for SupervisorMessage {
    fn clone(&self) -> (r: Self)
        ensures
            r == *self,
    {
        match self {
            SupervisorMessage::ChildFailed { child_id, error, failure_kind, retry_count } => {
                let k = match failure_kind {
                    Some(k) => Some(k.clone()),
                    None => None,
                };
                SupervisorMessage::ChildFailed {
                    child_id: child_id.clone(),
                    error: error.clone(),
                    failure_kind: k,
                    retry_count: *retry_count,
                }
            },
            SupervisorMessage::ChildStopped { child_id } => SupervisorMessage::ChildStopped {
                child_id: child_id.clone(),
            },
            SupervisorMessage::QueryChildren => SupervisorMessage::QueryChildren,
        }
    }
}

/// The retry limit of a strategy: its `max_retries`, or 0 for `Stop` and
/// `Escalate`.
pub open spec fn strategy_max_retries(s: SupervisionStrategy) -> u32 {
    match s {
        SupervisionStrategy::OneForOne { max_retries, .. } => max_retries,
        SupervisionStrategy::AllForOne { max_retries, .. } => max_retries,
        SupervisionStrategy::Stop => 0,
        SupervisionStrategy::Escalate => 0,
    }
}

/// The decision for a failure: the classification decides when there is
/// one (critical stops; transient restarts below the limit and escalates
/// from it; logic resumes below the limit and stops from it), otherwise the
/// strategy does.
pub open spec fn decide_spec(s: SupervisionStrategy, kind: Option<FailureKind>, retry_count: u32) -> SupervisionDecision {
    match kind {
        Some(FailureKind::Critical { .. }) => SupervisionDecision::Stop,
        Some(FailureKind::Transient { .. }) => if retry_count >= strategy_max_retries(s) {
            SupervisionDecision::Escalate
        } else {
            SupervisionDecision::Restart
        },
        Some(FailureKind::Logic { .. }) => if retry_count >= strategy_max_retries(s) {
            SupervisionDecision::Stop
        } else {
            SupervisionDecision::Resume
        },
        None => match s {
            SupervisionStrategy::OneForOne { max_retries, .. } => if retry_count >= max_retries {
                SupervisionDecision::Stop
            } else {
                SupervisionDecision::Restart
            },
            SupervisionStrategy::AllForOne { max_retries, .. } => if retry_count >= max_retries {
                SupervisionDecision::Escalate
            } else {
                SupervisionDecision::Restart
            },
            SupervisionStrategy::Stop => SupervisionDecision::Stop,
            SupervisionStrategy::Escalate => SupervisionDecision::Escalate,
        },
    }
}

/// A supervisor of a group of child actors.
pub struct Supervisor {
    id: ActorId,
    name: String,
    strategy: SupervisionStrategy,
    retry_counts: Keyed<u32>,
}

impl Supervisor {
    /// The supervisor's identity.
    pub closed spec fn spec_id(&self) -> ActorId {
        self.id
    }

    /// The supervisor's strategy.
    pub closed spec fn spec_strategy(&self) -> SupervisionStrategy {
        self.strategy
    }

    /// The last reported retry count of each child, by child id.
    pub closed spec fn spec_retry_counts(&self) -> Map<IdKey, u32> {
        self.retry_counts.map()
    }

    /// The invariant.
    pub closed spec fn wf(&self) -> bool {
        self.retry_counts.wf()
    }

    /// A supervisor with the given name and strategy, and no recorded
    /// failures.
    pub fn new(name: &str, strategy: SupervisionStrategy) -> (r: Self)
        ensures
            r.wf(),
            r.spec_id().name@ == name@,
            r.spec_strategy() == strategy,
            r.spec_retry_counts() == Map::<IdKey, u32>::empty(),
    {
        Supervisor {
            id: ActorId::new(name),
            name: String::from_str(name),
            strategy,
            retry_counts: Keyed::new(),
        }
    }

    /// The decision for a child's failure, classified by `failure_kind` when
    /// given, after `retry_count` earlier retries.
    pub fn decide(&self, child_id: &ActorId, failure_kind: Option<&FailureKind>, retry_count: u32) -> (r: SupervisionDecision)
        ensures
            r == decide_spec(
                self.spec_strategy(),
                match failure_kind {
                    Some(k) => Some(*k),
                    None => None,
                },
                retry_count,
            ),
    {
        if let Some(kind) = failure_kind {
            return match kind {
                FailureKind::Critical { .. } => SupervisionDecision::Stop,
                FailureKind::Transient { .. } => {
                    let max = self.max_retries();
                    if retry_count >= max {
                        SupervisionDecision::Escalate
                    } else {
                        SupervisionDecision::Restart
                    }
                },
                FailureKind::Logic { .. } => {
                    let max = self.max_retries();
                    if retry_count >= max {
                        SupervisionDecision::Stop
                    } else {
                        SupervisionDecision::Resume
                    }
                },
            };
        }
        match self.strategy {
            SupervisionStrategy::OneForOne { max_retries, within_secs: _ } => {
                if retry_count >= max_retries {
                    SupervisionDecision::Stop
                } else {
                    SupervisionDecision::Restart
                }
            },
            SupervisionStrategy::AllForOne { max_retries, within_secs: _ } => {
                if retry_count >= max_retries {
                    SupervisionDecision::Escalate
                } else {
                    SupervisionDecision::Restart
                }
            },
            SupervisionStrategy::Stop => SupervisionDecision::Stop,
            SupervisionStrategy::Escalate => SupervisionDecision::Escalate,
        }
    }

    /// The retry limit of the strategy.
    pub fn max_retries(&self) -> (r: u32)
        ensures
            r == strategy_max_retries(self.spec_strategy()),
    {
        match self.strategy {
            SupervisionStrategy::OneForOne { max_retries, .. } => max_retries,
            SupervisionStrategy::AllForOne { max_retries, .. } => max_retries,
            SupervisionStrategy::Stop => 0,
            SupervisionStrategy::Escalate => 0,
        }
    }

    /// Handles a supervisor message. A failure report records the child's
    /// retry count and returns the decision, and a child to be stopped is
    /// unregistered; a stopped child is unregistered and forgotten; a query
    /// changes nothing.
    pub fn handle<P>(&mut self, msg: SupervisorMessage, ctx: &mut ActorContext<P>) -> (r: Option<SupervisionDecision>)
        requires
            old(self).wf(),
            old(ctx).wf(),
        ensures
            final(self).wf(),
            final(ctx).wf(),
            final(self).spec_strategy() == old(self).spec_strategy(),
            final(self).spec_id() == old(self).spec_id(),
            final(ctx).spec_self_id() == old(ctx).spec_self_id(),
            final(ctx).spec_environment() == old(ctx).spec_environment(),
            match msg {
                SupervisorMessage::ChildFailed { child_id, failure_kind, retry_count, .. } => {
                    let d = decide_spec(old(self).spec_strategy(), failure_kind, retry_count);
                    &&& r == Some(d)
                    &&& final(self).spec_retry_counts() == old(self).spec_retry_counts().insert(child_id@, retry_count)
                    &&& final(ctx).spec_children() == if d == SupervisionDecision::Stop {
                        old(ctx).spec_children().remove(child_id@)
                    } else {
                        old(ctx).spec_children()
                    }
                },
                SupervisorMessage::ChildStopped { child_id } => {
                    &&& r is None
                    &&& final(self).spec_retry_counts() == old(self).spec_retry_counts().remove(child_id@)
                    &&& final(ctx).spec_children() == old(ctx).spec_children().remove(child_id@)
                },
                SupervisorMessage::QueryChildren => {
                    &&& r is None
                    &&& final(self).spec_retry_counts() == old(self).spec_retry_counts()
                    &&& final(ctx).spec_children() == old(ctx).spec_children()
                },
            },
    {
        match msg {
            SupervisorMessage::ChildFailed { child_id, error: _, failure_kind, retry_count } => {
                self.retry_counts.insert(child_id.clone(), retry_count);
                let decision = self.decide(&child_id, failure_kind.as_ref(), retry_count);
                if decision == SupervisionDecision::Stop {
                    ctx.remove_child(&child_id);
                }
                Some(decision)
            },
            SupervisorMessage::ChildStopped { child_id } => {
                ctx.remove_child(&child_id);
                self.retry_counts.remove(&child_id);
                None
            },
            SupervisorMessage::QueryChildren => None,
        }
    }

    /// The supervisor's name.
    pub fn name(&self) -> (r: &str)
        ensures
            r@ == self.spec_id().name@,
    {
        self.id.name.as_str()
    }

    /// The supervisor's identity.
    pub fn id(&self) -> (r: &ActorId)
        ensures
            *r == self.spec_id(),
    {
        &self.id
    }
}

/// A critical failure stops the child whatever the strategy and the retry
/// count.
pub proof fn lemma_critical_always_stops(s: SupervisionStrategy, alert: bool, retry_count: u32)
    ensures
        decide_spec(s, Some(FailureKind::Critical { alert }), retry_count) == SupervisionDecision::Stop,
{
}

/// A child is restarted only while its retry count is below the strategy's
/// limit, and resumed only on a logic failure below that limit.
pub proof fn lemma_restart_below_limit(s: SupervisionStrategy, kind: Option<FailureKind>, retry_count: u32)
    ensures
        decide_spec(s, kind, retry_count) == SupervisionDecision::Restart ==> retry_count < strategy_max_retries(s),
        decide_spec(s, kind, retry_count) == SupervisionDecision::Resume ==> (kind matches Some(FailureKind::Logic { .. }) && retry_count < strategy_max_retries(s)),
{
}

/// Once the retry count reaches the limit, a failure is never retried: it
/// stops or escalates.
pub proof fn lemma_limit_ends_retries(s: SupervisionStrategy, kind: Option<FailureKind>, retry_count: u32)
    requires
        retry_count >= strategy_max_retries(s),
    ensures
        decide_spec(s, kind, retry_count) == SupervisionDecision::Stop || decide_spec(s, kind, retry_count)
            == SupervisionDecision::Escalate,
{
}

/// The `Stop` and `Escalate` strategies never retry: with them even a
/// transient failure at its first occurrence escalates, and a logic failure
/// stops.
pub proof fn lemma_non_retrying_strategies(kind: Option<FailureKind>, retry_count: u32)
    ensures
        decide_spec(SupervisionStrategy::Stop, kind, retry_count) != SupervisionDecision::Restart,
        decide_spec(SupervisionStrategy::Escalate, kind, retry_count) != SupervisionDecision::Restart,
        decide_spec(SupervisionStrategy::Stop, kind, retry_count) != SupervisionDecision::Resume,
        decide_spec(SupervisionStrategy::Escalate, kind, retry_count) != SupervisionDecision::Resume,
{
}

/// Below the strategy's retry limit every failure is retried: an
/// unclassified or transient one restarts the child, and a logic one
/// resumes it. (Only `OneForOne` and `AllForOne` have a positive limit.)
pub proof fn lemma_retried_below_limit(s: SupervisionStrategy, kind: Option<FailureKind>, retry_count: u32)
    requires
        retry_count < strategy_max_retries(s),
    ensures
        s is OneForOne || s is AllForOne,
        kind is None ==> decide_spec(s, kind, retry_count) == SupervisionDecision::Restart,
        kind matches Some(FailureKind::Transient { .. }) ==> decide_spec(s, kind, retry_count) == SupervisionDecision::Restart,
        kind matches Some(FailureKind::Logic { .. }) ==> decide_spec(s, kind, retry_count) == SupervisionDecision::Resume,
{
}

/// From the retry limit on, an unclassified failure stops the child under
/// `OneForOne` and `Stop` and escalates under `AllForOne` and `Escalate`; a
/// transient failure escalates and a logic failure stops.
pub proof fn lemma_at_limit(s: SupervisionStrategy, kind: Option<FailureKind>, retry_count: u32)
    requires
        retry_count >= strategy_max_retries(s),
    ensures
        kind is None && (s is OneForOne || s is Stop) ==> decide_spec(s, kind, retry_count) == SupervisionDecision::Stop,
        kind is None && (s is AllForOne || s is Escalate) ==> decide_spec(s, kind, retry_count) == SupervisionDecision::Escalate,
        kind matches Some(FailureKind::Transient { .. }) ==> decide_spec(s, kind, retry_count) == SupervisionDecision::Escalate,
        kind matches Some(FailureKind::Logic { .. }) ==> decide_spec(s, kind, retry_count) == SupervisionDecision::Stop,
{
}

} // verus!
