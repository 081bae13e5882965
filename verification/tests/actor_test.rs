use agentor::actor::actor::{loop_step, status_after_start, ActorStatus, LoopStep};
use agentor::actor::address::ActorRef;
use agentor::actor::context::ActorContext;
use agentor::actor::failure::{AgentError, FailureKind};
use agentor::actor::mailbox::{Mailbox, MailboxSendError};
use agentor::actor::message::{ActorId, Envelope, SystemMessage, Timestamp};
use agentor::actor::system::{ActorSystem, HibernateStep, SystemError};
use agentor::agent::state::{AgentState, MemoryEntry};
use agentor::budget::TokenBudget;
use agentor::environment::Environment;
use agentor::observe::trace::{TraceCollector, TraceEventType};
use agentor::stream::interceptor::{relay_event, InterceptResult, KeywordInterceptor, Relay, StreamInterceptor};
use agentor::stream::stream::StreamEvent;
use std::sync::Arc;

fn now() -> Timestamp {
    let t = chrono::Utc::now();
    Timestamp { secs: t.timestamp(), nanos: t.timestamp_subsec_nanos() }
}

#[test]
fn test_mailbox_backpressure() {
    let (mut mailbox, sender) = Mailbox::new(2);

    // two messages fit
    let e1 = Envelope::new("msg1".to_string(), None);
    let e2 = Envelope::new("msg2".to_string(), None);
    sender.try_send(e1).unwrap();
    sender.try_send(e2).unwrap();

    // a third does not
    let e3 = Envelope::new("msg3".to_string(), None);
    let result = sender.try_send(e3);
    assert!(result.is_err());
    assert_eq!(result, Err(MailboxSendError::MailboxFull));

    // after one is taken there is room again
    let _ = mailbox.try_recv();
    let e4 = Envelope::new("msg4".to_string(), None);
    sender.try_send(e4).unwrap();
}

#[test]
fn test_token_budget() {
    let mut budget = TokenBudget::new("test-budget", 100);

    assert!(budget.try_consume(50));
    assert_eq!(budget.used(), 50);
    assert_eq!(budget.remaining(), 50);
    assert!(!budget.is_tripped());

    // over the limit
    assert!(!budget.try_consume(60));
    assert!(budget.is_tripped());

    // reset
    budget.reset();
    assert!(!budget.is_tripped());
    assert_eq!(budget.used(), 0);
}

#[test]
fn test_environment() {
    let mut env = Environment::new();
    env.set_config("model", "gpt-4");
    env.set_secret("API_KEY", "sk-test");

    assert_eq!(env.get_config("model"), Some("gpt-4".to_string()));
    assert_eq!(env.get_secret("API_KEY"), Some("sk-test".to_string()));
    assert!(env.has_secret("API_KEY"));
    assert!(!env.has_secret("MISSING"));
    assert_eq!(env.get_config("missing"), None);
}

#[test]
fn test_trace_collector() {
    let mut collector = TraceCollector::new(100);
    let actor_id = ActorId::new("test-actor");
    let trace_id = uuid::Uuid::new_v4().as_u128();

    collector.log(trace_id, &actor_id, TraceEventType::MessageReceived, "received hello");
    collector.log(trace_id, &actor_id, TraceEventType::LlmRequest, "calling gpt-4");

    assert_eq!(collector.len(), 2);

    let events = collector.query_by_trace(trace_id);
    assert_eq!(events.len(), 2);

    let actor_events = collector.query_by_actor(&actor_id, 10);
    assert_eq!(actor_events.len(), 2);

    collector.clear();
    assert!(collector.is_empty());
}

#[test]
fn test_agent_state() {
    let mut state = AgentState::new(3);

    for i in 0..5 {
        state.push_short_term(MemoryEntry {
            timestamp: now(),
            role: "user".to_string(),
            content: format!("msg {}", i),
            metadata: None,
        });
    }

    // capacity 3: only the newest 3 remain
    assert_eq!(state.short_term.len(), 3);
    assert_eq!(state.short_term.front().unwrap().content, "msg 2");
    assert_eq!(state.short_term.back().unwrap().content, "msg 4");

    // the newest 2
    let recent = state.recent_memories(2);
    assert_eq!(recent.len(), 2);
    assert_eq!(recent[0].content, "msg 4");
}

#[test]
fn test_mailbox_commit() {
    let (mut mailbox, sender) = Mailbox::new(8);

    let e = Envelope::new("hello".to_string(), None);
    sender.try_send(e).unwrap();

    let envelope = mailbox.try_recv().unwrap();
    assert_eq!(envelope.payload, "hello");

    mailbox.commit();
    assert_eq!(mailbox.retry_queue_len(), 0);
    assert_eq!(mailbox.dead_letter_count(), 0);
}

#[test]
fn test_mailbox_nack_retry() {
    let (mut mailbox, sender) = Mailbox::new(8);
    mailbox.set_max_retries(3);

    let e = Envelope::new(42u32, None);
    sender.try_send(e).unwrap();

    // first failure: back to the retry queue
    let envelope = mailbox.try_recv().unwrap();
    mailbox.nack(envelope, "transient error");
    assert_eq!(mailbox.retry_queue_len(), 1);
    assert_eq!(mailbox.dead_letter_count(), 0);

    // second failure, from the retry queue
    let envelope = mailbox.try_recv().unwrap();
    mailbox.nack(envelope, "transient error again");
    assert_eq!(mailbox.retry_queue_len(), 1);

    // third failure: max_retries reached, to the dead letters
    let envelope = mailbox.try_recv().unwrap();
    mailbox.nack(envelope, "final failure");
    assert_eq!(mailbox.retry_queue_len(), 0);
    assert_eq!(mailbox.dead_letter_count(), 1);

    let dead_letters = mailbox.drain_dead_letters();
    assert_eq!(dead_letters.len(), 1);
    assert_eq!(dead_letters[0].last_error, "final failure");
    assert!(dead_letters[0].envelope.is_some());
}

#[test]
fn test_mailbox_record_failure() {
    let (mut mailbox, sender) = Mailbox::new(8);

    let e = Envelope::new("data".to_string(), None);
    let msg_id = e.id;
    let trace_id = e.trace_id;
    sender.try_send(e).unwrap();

    let _envelope = mailbox.try_recv().unwrap();
    mailbox.record_failure(msg_id, trace_id, "handle_message panicked");

    assert_eq!(mailbox.dead_letter_count(), 1);
    let dls = mailbox.drain_dead_letters();
    assert_eq!(dls[0].msg_id, msg_id);
    assert!(dls[0].envelope.is_none());
}

#[test]
fn test_failure_kind_properties() {
    let transient = FailureKind::transient();
    assert!(transient.is_retryable());

    let logic = FailureKind::logic("bad JSON");
    assert!(logic.is_retryable());

    let critical = FailureKind::critical();
    assert!(!critical.is_retryable());

    let critical_silent = FailureKind::critical_silent();
    assert!(!critical_silent.is_retryable());
}

fn relay_all(interceptor: &mut KeywordInterceptor, events: Vec<StreamEvent<String>>) -> Vec<StreamEvent<String>> {
    let mut out = Vec::new();
    for ev in events {
        let verdict = match &ev {
            StreamEvent::Data(d) => interceptor.inspect(d),
            _ => InterceptResult::Pass,
        };
        match relay_event(ev, verdict) {
            Relay::Forward(d) => out.push(StreamEvent::Data(d)),
            Relay::Block { reason } => {
                out.push(StreamEvent::Error(agentor::stream::interceptor::intercepted_text(&reason)));
                break;
            }
            Relay::Finish(ev) => {
                out.push(ev);
                break;
            }
        }
    }
    out
}

#[test]
fn test_stream_interceptor_pass() {
    let mut interceptor = KeywordInterceptor::new(vec!["blocked".to_string()]);
    let delivered = relay_all(
        &mut interceptor,
        vec![
            StreamEvent::Data("hello".to_string()),
            StreamEvent::Data("world".to_string()),
            StreamEvent::End,
        ],
    );

    let mut chunks = Vec::new();
    for event in delivered {
        match event {
            StreamEvent::Data(d) => chunks.push(d),
            StreamEvent::End => break,
            _ => break,
        }
    }
    assert_eq!(chunks, vec!["hello", "world"]);
}

#[test]
fn test_stream_interceptor_block() {
    let mut interceptor = KeywordInterceptor::new(vec!["danger".to_string()]);
    let delivered = relay_all(
        &mut interceptor,
        vec![
            StreamEvent::Data("safe content".to_string()),
            StreamEvent::Data("this is danger zone".to_string()),
        ],
    );

    let mut chunks = Vec::new();
    let mut got_error = false;
    for event in delivered {
        match event {
            StreamEvent::Data(d) => chunks.push(d),
            StreamEvent::Error(e) => {
                assert!(e.contains("danger"));
                got_error = true;
                break;
            }
            _ => break,
        }
    }
    assert_eq!(chunks, vec!["safe content"]);
    assert!(got_error);
}

fn spawn_into(system: &mut ActorSystem<String>, name: &str) -> ActorId {
    let id = ActorId::new(name);
    let (_mailbox, sender) = Mailbox::<String>::new(256);
    system.register(ActorRef::new(id.clone(), sender));
    system.set_status(&id, status_after_start(true));
    id
}

#[test]
fn test_actor_system_find_by_name() {
    let mut system: ActorSystem<String> = ActorSystem::new("test-find");
    let original = spawn_into(&mut system, "finder");

    let found = system.find_by_name("finder");
    assert!(found.is_some());
    assert_eq!(found.unwrap().id().name, original.name);

    let not_found = system.find_by_name("nonexistent");
    assert!(not_found.is_none());
}

#[test]
fn test_hibernate_and_thaw() {
    let mut system: ActorSystem<String> = ActorSystem::new("test-hibernate");
    let actor_id = spawn_into(&mut system, "sleepy");

    // hibernate: the running actor must be stopped, then is marked hibernated
    assert_eq!(system.begin_hibernate(&actor_id), Ok(HibernateStep::StopActor));
    system.set_status(&actor_id, ActorStatus::Stopped);
    system.finish_hibernate(&actor_id);

    let status = system.status(&actor_id);
    assert!(
        status == Some(ActorStatus::Hibernated) || status == Some(ActorStatus::Stopped),
        "expected Hibernated or Stopped, got {:?}",
        status
    );

    // thaw: the entry is released for the restored actor
    let replay = system.begin_thaw(&actor_id).unwrap();
    assert_eq!(replay.len(), 0);
    assert_eq!(system.status(&actor_id), None);

    let new_id = spawn_into(&mut system, "sleepy");
    assert_eq!(system.status(&new_id), Some(ActorStatus::Running));
}

#[test]
fn test_hibernate_pending_messages() {
    let mut system: ActorSystem<String> = ActorSystem::new("test-pending");
    let actor_id = spawn_into(&mut system, "buffered");

    assert_eq!(system.begin_hibernate(&actor_id), Ok(HibernateStep::StopActor));
    system.set_status(&actor_id, ActorStatus::Stopped);
    system.finish_hibernate(&actor_id);

    let e1 = Envelope::new("pending1".to_string(), None);
    let e2 = Envelope::new("pending2".to_string(), None);
    assert!(system.buffer_message(&actor_id, e1));
    assert!(system.buffer_message(&actor_id, e2));
    assert_eq!(system.pending_message_count(&actor_id), 2);

    // thaw hands back the held messages in order, and forgets them
    let replay = system.begin_thaw(&actor_id).unwrap();
    assert_eq!(replay.len(), 2);
    assert_eq!(replay[0].payload, "pending1");
    assert_eq!(replay[1].payload, "pending2");

    assert_eq!(system.pending_message_count(&actor_id), 0);
}

#[test]
fn test_hibernate_refused_and_thaw_refused() {
    let mut system: ActorSystem<String> = ActorSystem::new("refusals");
    let id = ActorId::new("ghost");
    assert_eq!(system.begin_hibernate(&id), Err(SystemError::CannotHibernate(None)));
    assert_eq!(system.begin_thaw(&id).err(), Some(SystemError::CannotThaw(None)));

    let running = spawn_into(&mut system, "awake");
    assert_eq!(
        system.begin_thaw(&running).err(),
        Some(SystemError::CannotThaw(Some(ActorStatus::Running)))
    );
    // a message for an actor without a queue is refused
    assert!(!system.buffer_message(&running, Envelope::new("x".to_string(), None)));

    // hibernating twice: the second time there is nothing to do
    assert_eq!(system.begin_hibernate(&running), Ok(HibernateStep::StopActor));
    system.set_status(&running, ActorStatus::Stopped);
    system.finish_hibernate(&running);
    assert_eq!(system.begin_hibernate(&running), Ok(HibernateStep::AlreadyHibernated));

    system.set_status(&running, ActorStatus::Failed);
    assert_eq!(
        system.begin_hibernate(&running),
        Err(SystemError::CannotHibernate(Some(ActorStatus::Failed)))
    );
}

#[test]
fn test_actor_count_counts_running() {
    let mut system: ActorSystem<String> = ActorSystem::new("count");
    let a = spawn_into(&mut system, "a");
    let _b = spawn_into(&mut system, "b");
    assert_eq!(system.actor_count(), 2);
    system.set_status(&a, ActorStatus::Stopped);
    assert_eq!(system.actor_count(), 1);
    assert_eq!(system.actor_refs().len(), 2);
}

#[test]
fn test_loop_step_decisions() {
    assert_eq!(loop_step(Some(SystemMessage::Stop)), LoopStep::CommitAndStop);
    assert_eq!(loop_step(Some(SystemMessage::Ping)), LoopStep::CommitAndContinue);
    assert_eq!(loop_step(Some(SystemMessage::Restart)), LoopStep::Handle);
    assert_eq!(loop_step(None), LoopStep::Handle);
    assert_eq!(status_after_start(false), ActorStatus::Failed);
}

#[test]
fn test_context_children() {
    let id = ActorId::new("parent");
    let (_mb, sender) = Mailbox::<String>::new(4);
    let me = ActorRef::new(id.clone(), sender);
    let mut ctx = ActorContext::new(id.clone(), me, Arc::new(Environment::new()));
    let child = ActorId::new("child");
    let (_mb2, s2) = Mailbox::<String>::new(4);
    ctx.register_child(child.clone(), ActorRef::new(child.clone(), s2));
    assert_eq!(ctx.child(&child).unwrap().id().name, "child");
    assert_eq!(ctx.children().len(), 1);
    assert!(ctx.remove_child(&child).is_some());
    assert!(ctx.child(&child).is_none());
    assert!(ctx.remove_child(&child).is_none());
    assert_eq!(ctx.self_id().name, "parent");

    // children are told apart by the whole identity, id and name
    let twin = ActorId { id: child.id, name: "twin".to_string() };
    let (_mb3, s3) = Mailbox::<String>::new(4);
    let (_mb4, s4) = Mailbox::<String>::new(4);
    ctx.register_child(child.clone(), ActorRef::new(child.clone(), s3));
    ctx.register_child(twin.clone(), ActorRef::new(twin.clone(), s4));
    assert_eq!(ctx.children().len(), 2);
    assert_eq!(ctx.child(&twin).unwrap().id().name, "twin");
    assert!(ctx.remove_child(&twin).is_some());
    assert_eq!(ctx.child(&child).unwrap().id().name, "child");
}

#[test]
fn test_failure_descriptions() {
    assert_eq!(FailureKind::transient().describe(), "Transient(backoff=500ms)");
    assert_eq!(FailureKind::transient_with_backoff(1234).describe(), "Transient(backoff=1234ms)");
    assert_eq!(FailureKind::logic("bad JSON").describe(), "Logic(bad JSON)");
    assert_eq!(FailureKind::critical().describe(), "Critical(alert=true)");
    assert_eq!(FailureKind::critical_silent().describe(), "Critical(alert=false)");
    let err = AgentError::new(FailureKind::transient(), "LLM API timeout");
    assert_eq!(err.describe(), "[Transient(backoff=500ms)] LLM API timeout");
    assert!(err.kind.is_retryable());
    assert_eq!(err.message, "LLM API timeout");
    let with = AgentError::with_source(FailureKind::critical(), "budget", "exhausted");
    assert_eq!(with.source.as_deref(), Some("exhausted"));
    assert_eq!(MailboxSendError::MailboxFull.describe(), "mailbox is full");
    assert_eq!(MailboxSendError::ActorStopped.describe(), "actor has stopped, mailbox closed");
}

#[test]
fn test_actor_id_text() {
    let id = ActorId { id: 0x1a2b3c4d_0000_0000_0000_0000_0000_0000u128, name: "planner".to_string() };
    assert_eq!(id.describe(), "planner(1a2b3c4d)");
    let other = ActorId::new("planner");
    assert!(!id.same(&other));
    assert!(id.same(&id.clone()));
    let (_mb, sender) = Mailbox::<u8>::new(1);
    let r = ActorRef::new(id, sender);
    assert_eq!(r.describe(), "ActorRef(planner(1a2b3c4d))");
}

#[test]
fn test_stopped_mailbox_refuses() {
    let (mailbox, sender) = Mailbox::<u8>::new(1);
    assert!(!sender.is_closed());
    drop(mailbox);
    assert!(sender.is_closed());
    assert_eq!(sender.try_send(Envelope::new(1u8, None)), Err(MailboxSendError::ActorStopped));
}

#[test]
fn test_dead_letters_keep_most_recent() {
    let (mut mailbox, sender) = Mailbox::<u32>::new(256);
    mailbox.set_max_retries(1);
    for i in 0..105u32 {
        sender.try_send(Envelope::new(i, None)).unwrap();
        let e = mailbox.try_recv().unwrap();
        mailbox.nack(e, "boom");
    }
    assert_eq!(mailbox.dead_letter_count(), 100);
    let dls = mailbox.drain_dead_letters();
    assert_eq!(dls[0].envelope.as_ref().unwrap().payload, 5);
    assert_eq!(dls[99].envelope.as_ref().unwrap().payload, 104);
    assert_eq!(dls[0].retry_count, 1);
    assert_eq!(mailbox.dead_letter_count(), 0);
}

#[test]
fn test_nacked_message_comes_back_first() {
    let (mut mailbox, sender) = Mailbox::<&'static str>::new(8);
    sender.try_send(Envelope::new("first", None)).unwrap();
    sender.try_send(Envelope::new("second", None)).unwrap();
    let e = mailbox.try_recv().unwrap();
    mailbox.nack(e, "again");
    let again = mailbox.try_recv().unwrap();
    assert_eq!(again.payload, "first");
    mailbox.commit();
    assert_eq!(mailbox.try_recv().unwrap().payload, "second");
}

#[test]
fn test_actor_system_spawn_and_shutdown() {
    let mut system: ActorSystem<String> = ActorSystem::new("test-system");
    let (mailbox, sender) = Mailbox::new(256);
    let actor_ref = ActorRef::new(ActorId::new("echo"), sender);
    system.register(actor_ref.clone());
    system.set_status(actor_ref.id(), ActorStatus::Running);
    assert!(!actor_ref.is_stopped());
    assert!(actor_ref.try_tell("hello".to_string()).is_ok());
    assert!(actor_ref.try_tell("world".to_string()).is_ok());
    assert_eq!(system.actor_count(), 1);
    // the actor's task ends and its mailbox goes with it
    system.set_status(actor_ref.id(), ActorStatus::Stopped);
    drop(mailbox);
    assert!(actor_ref.is_stopped());
    assert_eq!(system.actor_count(), 0);
    assert_eq!(actor_ref.try_tell("late".to_string()), Err(MailboxSendError::ActorStopped));
}

#[test]
fn test_mailbox_default_capacity() {
    let (mailbox, _sender): (Mailbox<String>, _) = Mailbox::default_capacity();
    assert_eq!(mailbox.capacity(), 256);
    assert_eq!(mailbox.retry_queue_len(), 0);
    assert_eq!(mailbox.dead_letter_count(), 0);
}
