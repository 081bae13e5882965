//! Token budgets with a circuit breaker.
//!
//! A budget counts the tokens consumed against a limit. A consumption that
//! takes the total past the limit trips the breaker; from then on every
//! consumption is refused until the budget is reset or its limit raised.
use vstd::prelude::*;

verus! {

/// The mathematical form of a budget.
pub struct BudgetView {
    pub limit: u64,
    pub used: u64,
    pub tripped: bool,
    pub name: Seq<char>,
}

/// The budget after `tokens` are offered to it, and whether they were
/// accepted.
pub open spec fn consume_post(v: BudgetView, tokens: u64) -> (BudgetView, bool) {
    if v.tripped {
        (v, false)
    } else if v.used + tokens > v.limit {
        (BudgetView { used: (v.used + tokens) as u64, tripped: true, ..v }, false)
    } else {
        (BudgetView { used: (v.used + tokens) as u64, ..v }, true)
    }
}

/// The budget after its limit is set to `new_limit`: the breaker is
/// released when the new limit is above what has been used.
pub open spec fn set_limit_post(v: BudgetView, new_limit: u64) -> BudgetView {
    BudgetView {
        limit: new_limit,
        tripped: if new_limit > v.used {
            false
        } else {
            v.tripped
        },
        ..v
    }
}

/// The budget after a reset.
pub open spec fn reset_post(v: BudgetView) -> BudgetView {
    BudgetView { used: 0, tripped: false, ..v }
}

/// What is left of the budget: the limit less what was used, and never
/// below zero.
pub open spec fn remaining_spec(v: BudgetView) -> u64 {
    if v.used <= v.limit {
        (v.limit - v.used) as u64
    } else {
        0
    }
}

/// A token budget for one actor or a group of actors.
pub struct TokenBudget {
    limit: u64,
    used: u64,
    tripped: bool,
    name: String,
}

impl View for TokenBudget {
    type V = BudgetView;

    closed spec fn view(&self) -> BudgetView {
        BudgetView { limit: self.limit, used: self.used, tripped: self.tripped, name: self.name@ }
    }
}

impl TokenBudget {
    /// A fresh budget of `limit` tokens.
    pub fn new(name: &str, limit: u64) -> (r: Self)
        ensures
            r@ == (BudgetView { limit, used: 0, tripped: false, name: name@ }),
    {
        TokenBudget { limit, used: 0, tripped: false, name: String::from_str(name) }
    }

    /// A budget without a practical limit (`u64::MAX` tokens).
    pub fn unlimited(name: &str) -> (r: Self)
        ensures
            r@ == (BudgetView { limit: u64::MAX, used: 0, tripped: false, name: name@ }),
    {
        Self::new(name, u64::MAX)
    }

    /// Offers `tokens` to the budget. A tripped budget refuses them and
    /// stays as it is; otherwise they are counted, and they are accepted
    /// when the total stays within the limit, while a total past the limit
    /// trips the breaker.
    pub fn try_consume(&mut self, tokens: u64) -> (r: bool)
        requires
            !old(self)@.tripped ==> old(self)@.used + tokens <= u64::MAX,
        ensures
            (final(self)@, r) == consume_post(old(self)@, tokens),
    {
        if self.tripped {
            return false;
        }
        let new_total = self.used + tokens;
        self.used = new_total;
        if new_total > self.limit {
            self.tripped = true;
            false
        } else {
            true
        }
    }

    /// The tokens counted so far.
    pub fn used(&self) -> (r: u64)
        ensures
            r == self@.used,
    {
        self.used
    }

    /// The limit.
    pub fn limit(&self) -> (r: u64)
        ensures
            r == self@.limit,
    {
        self.limit
    }

    /// The tokens left before the limit.
    pub fn remaining(&self) -> (r: u64)
        ensures
            r == remaining_spec(self@),
    {
        self.limit.saturating_sub(self.used)
    }

    /// Whether the breaker has tripped.
    pub fn is_tripped(&self) -> (r: bool)
        ensures
            r == self@.tripped,
    {
        self.tripped
    }

    /// Forgets what was used and releases the breaker.
    pub fn reset(&mut self)
        ensures
            final(self)@ == reset_post(old(self)@),
    {
        self.used = 0;
        self.tripped = false;
    }

    /// Changes the limit; the breaker is released when the new limit is
    /// above what has been used.
    pub fn set_limit(&mut self, new_limit: u64)
        ensures
            final(self)@ == set_limit_post(old(self)@, new_limit),
    {
        self.limit = new_limit;
        if new_limit > self.used {
            self.tripped = false;
        }
    }

    /// The budget's name.
    pub fn name(&self) -> (r: &str)
        ensures
            r@ == self@.name,
    {
        self.name.as_str()
    }
}

/// A tripped budget refuses every consumption and is left unchanged by it.
pub proof fn lemma_tripped_refuses(v: BudgetView, tokens: u64)
    requires
        v.tripped,
    ensures
        consume_post(v, tokens) == (v, false),
{
}

/// Consumption never lowers what has been used.
pub proof fn lemma_used_monotone(v: BudgetView, tokens: u64)
    requires
        !v.tripped ==> v.used + tokens <= u64::MAX,
    ensures
        consume_post(v, tokens).0.used >= v.used,
{
}

/// An untripped budget has never gone past its limit, and consumption and
/// reset keep it so: an accepted consumption stays within the limit, and a
/// refused one trips the breaker.
pub proof fn lemma_untripped_within_limit(v: BudgetView, tokens: u64)
    requires
        !v.tripped ==> v.used <= v.limit,
        !v.tripped ==> v.used + tokens <= u64::MAX,
    ensures
        !consume_post(v, tokens).0.tripped ==> consume_post(v, tokens).0.used <= consume_post(v, tokens).0.limit,
        !reset_post(v).tripped ==> reset_post(v).used <= reset_post(v).limit,
        consume_post(v, tokens).1 <==> (!v.tripped && v.used + tokens <= v.limit),
{
}

/// Within the limit, what was used and what remains add up to the limit.
pub proof fn lemma_used_plus_remaining(v: BudgetView)
    requires
        v.used <= v.limit,
    ensures
        v.used + remaining_spec(v) == v.limit,
{
}

/// After a reset, a consumption is accepted exactly when it fits in the
/// limit.
pub proof fn lemma_reset_then_consume(v: BudgetView, tokens: u64)
    ensures
        consume_post(reset_post(v), tokens).1 <==> tokens <= v.limit,
        consume_post(reset_post(v), tokens).0.used == tokens,
{
}

/// One operation on a budget: a consumption offer, a reset, or a new limit.
pub enum BudgetEvent {
    Consume(u64),
    Reset,
    SetLimit(u64),
}

/// The budget after one operation, as `try_consume`, `reset` and
/// `set_limit` leave it.
pub open spec fn apply_event(v: BudgetView, e: BudgetEvent) -> BudgetView {
    match e {
        BudgetEvent::Consume(t) => consume_post(v, t).0,
        BudgetEvent::Reset => reset_post(v),
        BudgetEvent::SetLimit(l) => set_limit_post(v, l),
    }
}

/// The budget after a sequence of operations, in order.
pub open spec fn apply_events(v: BudgetView, es: Seq<BudgetEvent>) -> BudgetView
    decreases es.len(),
{
    if es.len() == 0 {
        v
    } else {
        apply_event(apply_events(v, es.drop_last()), es.last())
    }
}

/// No consumption offered to an untripped budget along the sequence takes
/// its count past `u64::MAX`.
pub open spec fn no_overflow(v: BudgetView, es: Seq<BudgetEvent>) -> bool
    decreases es.len(),
{
    if es.len() == 0 {
        true
    } else {
        let p = apply_events(v, es.drop_last());
        &&& no_overflow(v, es.drop_last())
        &&& match es.last() {
            BudgetEvent::Consume(t) => !p.tripped ==> p.used + t <= u64::MAX,
            _ => true,
        }
    }
}

/// The tokens counted since the last reset (or since the start, counting
/// from what was used then): those of each consumption offered while the
/// budget was not tripped, the tripping one included.
pub open spec fn tokens_since_reset(v: BudgetView, es: Seq<BudgetEvent>) -> int
    decreases es.len(),
{
    if es.len() == 0 {
        v.used as int
    } else {
        let p = apply_events(v, es.drop_last());
        match es.last() {
            BudgetEvent::Consume(t) => tokens_since_reset(v, es.drop_last()) + if p.tripped {
                0
            } else {
                t as int
            },
            BudgetEvent::Reset => 0,
            BudgetEvent::SetLimit(_) => tokens_since_reset(v, es.drop_last()),
        }
    }
}

/// Whether the last of the operations that decide the breaker was a
/// tripping consumption. Those operations are a reset, a new limit above
/// what was used, and a consumption that took an untripped budget past its
/// limit; before any of them, the breaker is as it was at the start.
pub open spec fn last_decider_trips(v: BudgetView, es: Seq<BudgetEvent>) -> bool
    decreases es.len(),
{
    if es.len() == 0 {
        v.tripped
    } else {
        let p = apply_events(v, es.drop_last());
        match es.last() {
            BudgetEvent::Consume(t) => if !p.tripped && p.used + t > p.limit {
                true
            } else {
                last_decider_trips(v, es.drop_last())
            },
            BudgetEvent::Reset => false,
            BudgetEvent::SetLimit(l) => if l > p.used {
                false
            } else {
                last_decider_trips(v, es.drop_last())
            },
        }
    }
}

/// What a budget has used is the sum of the tokens offered since the last
/// reset while it was not tripped (the tripping offer included); refused
/// offers and new limits add nothing.
pub proof fn lemma_used_is_sum_since_reset(v: BudgetView, es: Seq<BudgetEvent>)
    requires
        no_overflow(v, es),
    ensures
        apply_events(v, es).used == tokens_since_reset(v, es),
    decreases es.len(),
{
    if es.len() > 0 {
        lemma_used_is_sum_since_reset(v, es.drop_last());
    }
}

/// A budget is tripped exactly when the last operation that decides the
/// breaker was a consumption that took it past its limit; for a fresh
/// budget, which starts untripped, a reset or a limit above what was used
/// always releases it.
pub proof fn lemma_tripped_by_last_decider(v: BudgetView, es: Seq<BudgetEvent>)
    ensures
        apply_events(v, es).tripped == last_decider_trips(v, es),
    decreases es.len(),
{
    if es.len() > 0 {
        lemma_tripped_by_last_decider(v, es.drop_last());
    }
}

/// The history laws of a budget made by `TokenBudget::new(name, limit)` and
/// then given the calls recorded in `es` (`try_consume`, `reset` and
/// `set_limit`, whose contracts are `apply_event` step by step), without
/// overflowing its count:
/// - what it has used is the sum of the tokens offered since the last reset
///   (or its creation) while it was not tripped, the tripping offer
///   included; offers refused while tripped and new limits add nothing;
/// - it is tripped exactly when the last of the operations that decide the
///   breaker (a reset, a new limit above what was used, a consumption that
///   went past the limit) was such a consumption; before any of them it is
///   not tripped.
pub proof fn lemma_budget_history(name: Seq<char>, limit: u64, es: Seq<BudgetEvent>)
    requires
        no_overflow(BudgetView { limit, used: 0, tripped: false, name }, es),
    ensures
        ({
            let v0 = BudgetView { limit, used: 0, tripped: false, name };
            &&& apply_events(v0, es).used == tokens_since_reset(v0, es)
            &&& apply_events(v0, es).tripped == last_decider_trips(v0, es)
            &&& es.len() == 0 ==> tokens_since_reset(v0, es) == 0 && !last_decider_trips(v0, es)
        }),
{
    let v0 = BudgetView { limit, used: 0, tripped: false, name };
    lemma_used_is_sum_since_reset(v0, es);
    lemma_tripped_by_last_decider(v0, es);
}

/// A new limit takes effect: the budget's limit is the new one, nothing
/// used is forgotten, and the next consumption is accepted exactly when the
/// breaker is released and the total fits under the new limit. The breaker
/// is released when the new limit is above what was used, and otherwise
/// stays as it was.
pub proof fn lemma_set_limit_takes_effect(v: BudgetView, new_limit: u64, tokens: u64)
    ensures
        set_limit_post(v, new_limit).limit == new_limit,
        set_limit_post(v, new_limit).used == v.used,
        new_limit > v.used ==> !set_limit_post(v, new_limit).tripped,
        new_limit <= v.used ==> set_limit_post(v, new_limit).tripped == v.tripped,
        consume_post(set_limit_post(v, new_limit), tokens).1 <==> (!set_limit_post(v, new_limit).tripped && v.used
            + tokens <= new_limit),
{
}

} // verus!
