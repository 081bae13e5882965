//! The transactional mailbox.
//!
//! A received message is "in flight" until it is committed. A message whose
//! handling fails is nacked: it goes back to a retry queue, which is served
//! before new messages, or, once it has failed `max_retries` times, to a
//! bounded dead-letter queue that keeps the most recent entries.
use std::collections::VecDeque;
use vstd::prelude::*;
use super::message::Envelope;
use crate::bounded::bounded_push;

verus! {

#[verifier::external_type_specification]
#[verifier::external_body]
#[verifier::reject_recursive_types(T)]
pub struct ExReceiver<T>(tokio::sync::mpsc::Receiver<T>);

#[verifier::external_type_specification]
#[verifier::external_body]
#[verifier::reject_recursive_types(T)]
pub struct ExSender<T>(tokio::sync::mpsc::Sender<T>);

/// Creates a bounded channel (`tokio::sync::mpsc::channel`), which panics
/// on a zero capacity and on one above the semaphore's limit of
/// `usize::MAX >> 3` (that is, `usize::MAX / 8`) permits.
#[verifier::external_body]
fn bounded_channel<T>(capacity: usize) -> (r: (tokio::sync::mpsc::Sender<T>, tokio::sync::mpsc::Receiver<T>))
    requires
        0 < capacity <= usize::MAX / 8,
{
    tokio::sync::mpsc::channel(capacity)
}

/// Takes a message from the channel without waiting
/// (`tokio::sync::mpsc::Receiver::try_recv`); `None` when it is empty or
/// closed. What comes back depends on what other tasks have sent.
#[verifier::external_body]
fn channel_try_recv<T>(receiver: &mut tokio::sync::mpsc::Receiver<T>) -> Option<T> {
    receiver.try_recv().ok()
}

/// Sends without waiting (`tokio::sync::mpsc::Sender::try_send`), telling a
/// full channel from a closed one. The outcome depends on the channel's
/// state.
#[verifier::external_body]
fn channel_try_send<T>(sender: &tokio::sync::mpsc::Sender<T>, value: T) -> Result<(), MailboxSendError> {
    match sender.try_send(value) {
        Ok(()) => Ok(()),
        Err(tokio::sync::mpsc::error::TrySendError::Full(_)) => Err(MailboxSendError::MailboxFull),
        Err(tokio::sync::mpsc::error::TrySendError::Closed(_)) => Err(MailboxSendError::ActorStopped),
    }
}

/// Another handle to the same channel (`tokio::sync::mpsc::Sender::clone`,
/// which copies the handle to the shared channel).
#[verifier::external_body]
fn channel_clone_sender<T>(sender: &tokio::sync::mpsc::Sender<T>) -> (r: tokio::sync::mpsc::Sender<T>)
    ensures
        r == *sender,
{
    sender.clone()
}

/// Whether the receiving half has been dropped
/// (`tokio::sync::mpsc::Sender::is_closed`); depends on other tasks.
#[verifier::external_body]
fn channel_is_closed<T>(sender: &tokio::sync::mpsc::Sender<T>) -> bool {
    sender.is_closed()
}

/// Why a message could not be put in a mailbox.
#[derive(Debug, Clone, Copy, PartialEq, Eq, Structural)]
pub enum MailboxSendError {
    /// The actor has stopped and its mailbox is closed.
    ActorStopped,
    /// The mailbox is full.
    MailboxFull,
}

impl MailboxSendError {
    /// The human-readable form of the error.
    pub fn describe(&self) -> (s: String)
        ensures
            s@ == (match *self {
                MailboxSendError::ActorStopped => "actor has stopped, mailbox closed"@,
                MailboxSendError::MailboxFull => "mailbox is full"@,
            }),
    {
        match self {
            MailboxSendError::ActorStopped => String::from_str("actor has stopped, mailbox closed"),
            MailboxSendError::MailboxFull => String::from_str("mailbox is full"),
        }
    }
}

/// A message waiting to be delivered again, with the number of times it has
/// failed so far.
pub struct RetryEntry<P> {
    pub envelope: Envelope<P>,
    pub retry_count: u32,
}

/// A message whose handling failed for good.
#[derive(Debug)]
pub struct DeadLetter<P> {
    pub msg_id: u128,
    pub trace_id: u128,
    pub retry_count: u32,
    pub last_error: String,
    /// The original message, where it could be handed back.
    pub envelope: Option<Envelope<P>>,
}

/// The mathematical form of a dead letter.
pub struct DeadLetterView<P> {
    pub msg_id: u128,
    pub trace_id: u128,
    pub retry_count: u32,
    pub last_error: Seq<char>,
    pub envelope: Option<Envelope<P>>,
}

impl<P> View for DeadLetter<P> {
    type V = DeadLetterView<P>;

    open spec fn view(&self) -> DeadLetterView<P> {
        DeadLetterView {
            msg_id: self.msg_id,
            trace_id: self.trace_id,
            retry_count: self.retry_count,
            last_error: self.last_error@,
            envelope: self.envelope,
        }
    }
}

/// The mathematical form of a mailbox: its retry queue (front first), its
/// dead-letter queue (oldest first), the failure count of the message in
/// flight, and its limits.
pub struct MailboxView<P> {
    pub retry: Seq<RetryEntry<P>>,
    pub dead: Seq<DeadLetterView<P>>,
    pub inflight: Option<u32>,
    pub max_retries: u32,
    pub dlq_capacity: nat,
    pub capacity: nat,
}

/// The failure count that a failure of the message in flight brings it to.
pub open spec fn next_failure_count<P>(v: MailboxView<P>) -> int {
    match v.inflight {
        Some(c) => c + 1,
        None => 1,
    }
}

/// The mailbox after the message in flight, `envelope`, is nacked with
/// `error`.
pub open spec fn nack_post<P>(v: MailboxView<P>, envelope: Envelope<P>, error: Seq<char>) -> MailboxView<P> {
    let count = next_failure_count(v);
    if count >= v.max_retries {
        MailboxView {
            dead: bounded_push(
                v.dead,
                DeadLetterView {
                    msg_id: envelope.id,
                    trace_id: envelope.trace_id,
                    retry_count: count as u32,
                    last_error: error,
                    envelope: Some(envelope),
                },
                v.dlq_capacity,
            ),
            inflight: None,
            ..v
        }
    } else {
        MailboxView {
            retry: v.retry.push(RetryEntry { envelope, retry_count: count as u32 }),
            inflight: None,
            ..v
        }
    }
}

/// The mailbox after a failure of the message in flight, whose envelope is
/// gone, is recorded with `error`.
pub open spec fn record_failure_post<P>(v: MailboxView<P>, msg_id: u128, trace_id: u128, error: Seq<char>) -> MailboxView<P> {
    MailboxView {
        dead: bounded_push(
            v.dead,
            DeadLetterView {
                msg_id,
                trace_id,
                retry_count: next_failure_count(v) as u32,
                last_error: error,
                envelope: None,
            },
            v.dlq_capacity,
        ),
        inflight: None,
        ..v
    }
}

/// The mailbox after the front of its retry queue is taken for delivery.
pub open spec fn take_retry_post<P>(v: MailboxView<P>) -> MailboxView<P>
    recommends
        v.retry.len() > 0,
{
    MailboxView { retry: v.retry.drop_first(), inflight: Some(v.retry[0].retry_count), ..v }
}

/// The transactional mailbox of an actor.
#[verifier::reject_recursive_types(P)]
pub struct Mailbox<P> {
    receiver: tokio::sync::mpsc::Receiver<Envelope<P>>,
    capacity: usize,
    retry_queue: VecDeque<RetryEntry<P>>,
    dead_letters: VecDeque<DeadLetter<P>>,
    inflight_retry_count: Option<u32>,
    max_retries: u32,
    dlq_capacity: usize,
}

/// The sending half of a mailbox; it can be cloned and shared.
#[verifier::reject_recursive_types(P)]
pub struct MailboxSender<P> {
    sender: tokio::sync::mpsc::Sender<Envelope<P>>,
}

impl<P> Clone for MailboxSender<P> {
    /// Another sender for the same mailbox.
    fn clone(&self) -> (r: Self)
        ensures
            r == *self,
    {
        MailboxSender { sender: channel_clone_sender(&self.sender) }
    }
}

impl<P> View for Mailbox<P> {
    type V = MailboxView<P>;

    closed spec fn view(&self) -> MailboxView<P> {
        MailboxView {
            retry: self.retry_queue@,
            dead: self.dead_letters@.map_values(|d: DeadLetter<P>| d@),
            inflight: self.inflight_retry_count,
            max_retries: self.max_retries,
            dlq_capacity: self.dlq_capacity as nat,
            capacity: self.capacity as nat,
        }
    }
}

/// The well-formedness of a mailbox view: failure counts stay below
/// `u32::MAX`, and the dead-letter queue, of capacity 100, holds at most
/// that many entries.
pub open spec fn view_wf<P>(v: MailboxView<P>) -> bool {
    &&& v.dlq_capacity == 100
    &&& v.dead.len() <= v.dlq_capacity
    &&& forall|i: int| 0 <= i < v.retry.len() ==> #[trigger] v.retry[i].retry_count < u32::MAX
    &&& v.inflight matches Some(c) ==> c < u32::MAX
}

impl<P> Mailbox<P> {
    /// The mailbox's invariant.
    pub open spec fn wf(&self) -> bool {
        view_wf(self@)
    }

    /// A new mailbox whose channel holds up to `capacity` messages (at
    /// least one, at most `usize::MAX / 8`, as tokio's channel allows), with at
    /// most 3 failures per message and at most 100 dead letters, and its
    /// sending half.
    pub fn new(capacity: usize) -> (r: (Self, MailboxSender<P>))
        requires
            0 < capacity <= usize::MAX / 8,
        ensures
            r.0.wf(),
            r.0@.retry.len() == 0,
            r.0@.dead.len() == 0,
            r.0@.inflight is None,
            r.0@.max_retries == 3,
            r.0@.dlq_capacity == 100,
            r.0@.capacity == capacity,
    {
        let (sender, receiver) = bounded_channel(capacity);
        let mb = Mailbox {
            receiver,
            capacity,
            retry_queue: VecDeque::new(),
            dead_letters: VecDeque::new(),
            inflight_retry_count: None,
            max_retries: 3,
            dlq_capacity: 100,
        };
        assert(mb@.dead =~= Seq::<DeadLetterView<P>>::empty());
        (mb, MailboxSender { sender })
    }

    /// A new mailbox with the default capacity of 256 messages.
    pub fn default_capacity() -> (r: (Self, MailboxSender<P>))
        ensures
            r.0.wf(),
            r.0@.retry.len() == 0,
            r.0@.dead.len() == 0,
            r.0@.inflight is None,
            r.0@.max_retries == 3,
            r.0@.dlq_capacity == 100,
            r.0@.capacity == 256,
    {
        Self::new(256)
    }

    /// Sets the number of failures after which a message goes to the
    /// dead-letter queue.
    pub fn set_max_retries(&mut self, max: u32)
        requires
            old(self).wf(),
        ensures
            final(self).wf(),
            final(self)@ == (MailboxView { max_retries: max, ..old(self)@ }),
    {
        self.max_retries = max;
    }

    /// Takes the front of the retry queue for delivery, making it the
    /// message in flight; `None`, and no change, when the queue is empty.
    pub fn take_retry(&mut self) -> (r: Option<Envelope<P>>)
        requires
            old(self).wf(),
        ensures
            final(self).wf(),
            old(self)@.retry.len() > 0 ==> r == Some(old(self)@.retry[0].envelope) && final(self)@
                == take_retry_post(old(self)@),
            old(self)@.retry.len() == 0 ==> r is None && final(self)@ == old(self)@,
    {
        match self.retry_queue.pop_front() {
            Some(entry) => {
                self.inflight_retry_count = Some(entry.retry_count);
                proof {
                    assert(final(self)@.retry =~= take_retry_post(old(self)@).retry);
                }
                Some(entry.envelope)
            },
            None => None,
        }
    }

    /// Marks a message just taken from the channel as the message in
    /// flight, with no failures yet.
    pub fn mark_received(&mut self)
        requires
            old(self).wf(),
        ensures
            final(self).wf(),
            final(self)@ == (MailboxView { inflight: Some(0u32), ..old(self)@ }),
    {
        self.inflight_retry_count = Some(0);
    }

    /// Receives the next message without waiting: the front of the retry
    /// queue if there is one, else whatever the channel holds. A message
    /// from the channel is in flight with no failures.
    pub fn try_recv(&mut self) -> (r: Option<Envelope<P>>)
        requires
            old(self).wf(),
        ensures
            final(self).wf(),
            old(self)@.retry.len() > 0 ==> r == Some(old(self)@.retry[0].envelope) && final(self)@
                == take_retry_post(old(self)@),
            old(self)@.retry.len() == 0 ==> r is Some ==> final(self)@ == (MailboxView {
                inflight: Some(0u32),
                ..old(self)@
            }),
            old(self)@.retry.len() == 0 ==> r is None ==> final(self)@ == old(self)@,
    {
        if let Some(envelope) = self.take_retry() {
            return Some(envelope);
        }
        match channel_try_recv(&mut self.receiver) {
            Some(envelope) => {
                self.inflight_retry_count = Some(0);
                Some(envelope)
            },
            None => None,
        }
    }

    /// The receiving half of the mailbox's channel.
    pub closed spec fn receiver_handle(&self) -> tokio::sync::mpsc::Receiver<Envelope<P>> {
        self.receiver
    }

    /// The receiving channel, for waiting on new messages: a borrow of the
    /// mailbox's own receiving half, through which it is used in place; the
    /// rest of the mailbox is left as it is.
    pub fn channel(&mut self) -> (r: &mut tokio::sync::mpsc::Receiver<Envelope<P>>)
        ensures
            *r == old(self).receiver_handle(),
            final(self).receiver_handle() == *final(r),
            final(self)@ == old(self)@,
    {
        &mut self.receiver
    }

    /// Confirms that the message in flight was handled.
    pub fn commit(&mut self)
        requires
            old(self).wf(),
        ensures
            final(self).wf(),
            final(self)@ == (MailboxView { inflight: None, ..old(self)@ }),
    {
        self.inflight_retry_count = None;
    }

    fn push_dead_letter(&mut self, dl: DeadLetter<P>)
        requires
            old(self).wf(),
        ensures
            final(self)@ == (MailboxView { dead: bounded_push(old(self)@.dead, dl@, old(self)@.dlq_capacity), ..old(self)@ }),
            final(self)@.dead.len() <= final(self)@.dlq_capacity,
    {
        let ghost d0 = self.dead_letters@;
        if self.dead_letters.len() >= self.dlq_capacity {
            self.dead_letters.pop_front();
        }
        self.dead_letters.push_back(dl);
        proof {
            let f = |d: DeadLetter<P>| d@;
            if d0.len() >= self.dlq_capacity && d0.len() > 0 {
                assert(self.dead_letters@ =~= d0.drop_first().push(dl));
                assert(self.dead_letters@.map_values(f) =~= d0.map_values(f).drop_first().push(dl@));
            } else {
                assert(self.dead_letters@ =~= d0.push(dl));
                assert(self.dead_letters@.map_values(f) =~= d0.map_values(f).push(dl@));
            }
        }
    }

    /// The handling of the message in flight failed and its envelope is
    /// handed back: it goes to the retry queue with its failure count raised
    /// by one, or to the dead-letter queue once that count reaches
    /// `max_retries`.
    pub fn nack(&mut self, envelope: Envelope<P>, error: &str)
        requires
            old(self).wf(),
        ensures
            final(self).wf(),
            final(self)@ == nack_post(old(self)@, envelope, error@),
    {
        let prev_count = match self.inflight_retry_count {
            Some(c) => c,
            None => 0,
        };
        self.inflight_retry_count = None;
        let retry_count = prev_count + 1;
        if retry_count >= self.max_retries {
            let msg_id = envelope.id;
            let trace_id = envelope.trace_id;
            self.push_dead_letter(
                DeadLetter {
                    msg_id,
                    trace_id,
                    retry_count,
                    last_error: String::from_str(error),
                    envelope: Some(envelope),
                },
            );
        } else {
            self.retry_queue.push_back(RetryEntry { envelope, retry_count });
        }
    }

    /// The handling of the message in flight failed and its envelope was
    /// consumed: the failure is recorded in the dead-letter queue without
    /// the message.
    pub fn record_failure(&mut self, msg_id: u128, trace_id: u128, error: &str)
        requires
            old(self).wf(),
        ensures
            final(self).wf(),
            final(self)@ == record_failure_post(old(self)@, msg_id, trace_id, error@),
    {
        let prev_count = match self.inflight_retry_count {
            Some(c) => c,
            None => 0,
        };
        self.inflight_retry_count = None;
        let retry_count = prev_count + 1;
        self.push_dead_letter(
            DeadLetter { msg_id, trace_id, retry_count, last_error: String::from_str(error), envelope: None },
        );
    }

    /// The number of dead letters.
    pub fn dead_letter_count(&self) -> (r: usize)
        ensures
            r == self@.dead.len(),
    {
        proof {
            assert(self.dead_letters@.map_values(|d: DeadLetter<P>| d@).len() == self.dead_letters@.len());
        }
        self.dead_letters.len()
    }

    /// The number of messages waiting in the retry queue.
    pub fn retry_queue_len(&self) -> (r: usize)
        ensures
            r == self@.retry.len(),
    {
        self.retry_queue.len()
    }

    /// Empties the dead-letter queue and returns its entries, oldest first.
    pub fn drain_dead_letters(&mut self) -> (r: Vec<DeadLetter<P>>)
        requires
            old(self).wf(),
        ensures
            final(self).wf(),
            r@.map_values(|d: DeadLetter<P>| d@) == old(self)@.dead,
            final(self)@ == (MailboxView { dead: Seq::empty(), ..old(self)@ }),
    {
        let mut queue: VecDeque<DeadLetter<P>> = VecDeque::new();
        std::mem::swap(&mut queue, &mut self.dead_letters);
        let ghost d0 = queue@;
        let mut out: Vec<DeadLetter<P>> = Vec::new();
        while queue.len() > 0
            invariant
                out@ + queue@ == d0,
            decreases queue@.len(),
        {
            match queue.pop_front() {
                Some(d) => {
                    out.push(d);
                    assert(out@ + queue@ =~= d0);
                },
                None => {},
            }
        }
        proof {
            assert(out@ =~= d0);
            assert(self.dead_letters@.map_values(|d: DeadLetter<P>| d@) =~= Seq::<DeadLetterView<P>>::empty());
        }
        out
    }

    /// The capacity of the mailbox's channel.
    pub fn capacity(&self) -> (r: usize)
        ensures
            r == self@.capacity,
    {
        self.capacity
    }
}

impl<P> MailboxSender<P> {
    /// Puts a message in the mailbox without waiting; fails with
    /// `MailboxFull` when the channel is full and with `ActorStopped` when
    /// the mailbox is gone.
    pub fn try_send(&self, envelope: Envelope<P>) -> (r: Result<(), MailboxSendError>) {
        channel_try_send(&self.sender, envelope)
    }

    /// Whether the mailbox has been dropped.
    pub fn is_closed(&self) -> bool {
        channel_is_closed(&self.sender)
    }

    /// The sending half of the channel behind this sender.
    pub closed spec fn sender_handle(&self) -> tokio::sync::mpsc::Sender<Envelope<P>> {
        self.sender
    }

    /// The channel's sending half, for sending with back-pressure: this
    /// sender's own handle.
    pub fn channel(&self) -> (r: &tokio::sync::mpsc::Sender<Envelope<P>>)
        ensures
            *r == self.sender_handle(),
    {
        &self.sender
    }
}

/// A nacked message comes back from the next delivery of the retry queue,
/// when it was the only one waiting there, with the failure count that the
/// nack gave it.
pub proof fn lemma_nack_then_redeliver<P>(v: MailboxView<P>, envelope: Envelope<P>, error: Seq<char>)
    requires
        view_wf(v),
        v.retry.len() == 0,
        next_failure_count(v) < v.max_retries,
    ensures
        nack_post(v, envelope, error).retry.len() == 1,
        nack_post(v, envelope, error).retry[0].envelope == envelope,
        take_retry_post(nack_post(v, envelope, error)).inflight == Some(next_failure_count(v) as u32),
        take_retry_post(nack_post(v, envelope, error)).retry.len() == 0,
        take_retry_post(nack_post(v, envelope, error)).dead == v.dead,
{
}

/// A failure of the message in flight sends it to the dead-letter queue,
/// with its raised failure count, exactly when that count reaches
/// `max_retries`; below that it is queued for retry with the raised count
/// and the dead letters stay as they are.
pub proof fn lemma_failures_reach_dead_letters<P>(v: MailboxView<P>, envelope: Envelope<P>, error: Seq<char>)
    requires
        view_wf(v),
        v.inflight is Some,
    ensures
        next_failure_count(v) >= v.max_retries ==> {
            &&& nack_post(v, envelope, error).dead.last().envelope == Some(envelope)
            &&& nack_post(v, envelope, error).dead.last().retry_count == next_failure_count(v)
            &&& nack_post(v, envelope, error).retry == v.retry
        },
        next_failure_count(v) < v.max_retries ==> {
            &&& nack_post(v, envelope, error).dead == v.dead
            &&& nack_post(v, envelope, error).retry.last().retry_count == next_failure_count(v)
        },
{
}

/// A mailbox never holds more than 100 dead letters: a failure adds one,
/// dropping the oldest once there are 100.
pub proof fn lemma_dead_letters_bounded<P>(v: MailboxView<P>, envelope: Envelope<P>, msg_id: u128, trace_id: u128, error: Seq<char>)
    requires
        view_wf(v),
    ensures
        v.dead.len() <= 100,
        nack_post(v, envelope, error).dead.len() <= 100,
        record_failure_post(v, msg_id, trace_id, error).dead.len() <= 100,
        record_failure_post(v, msg_id, trace_id, error).dead.len() == if v.dead.len() < 100 {
            v.dead.len() + 1
        } else {
            100
        },
{
}

} // verus!
