use agentor::actor::context::ActorContext;
use agentor::actor::address::ActorRef;
use agentor::actor::failure::FailureKind;
use agentor::actor::mailbox::Mailbox;
use agentor::actor::message::ActorId;
use agentor::agent::agent::{AgentActor, AgentMessage, AgentStep};
use agentor::agent::checkpoint::CheckpointStore;
use agentor::agent::llm::{LlmMessage, LlmResponse, LlmRole};
use agentor::agent::parser::{JsonParser, OutputParser};
use agentor::agent::state::{AgentPhase, AgentState, MemoryEntry};
use agentor::agent::tool::CalculatorTool;
use agentor::environment::Environment;
use agentor::supervisor::strategy::{SupervisionDecision, SupervisionStrategy};
use agentor::supervisor::supervisor::{Supervisor, SupervisorMessage};
use agentor::text::{char_is_whitespace, decimal, decimal_zero_padded, parse_u64, trim};
use std::path::PathBuf;
use std::sync::Arc;

#[test]
fn test_agent_prompt_echo_and_reply() {
    let mut agent = AgentActor::new("test-planner").with_system_prompt("be brief");
    match agent.begin_message(AgentMessage::UserPrompt("test prompt".to_string())) {
        AgentStep::CallModel { prompt, context } => {
            assert_eq!(prompt, "test prompt");
            assert_eq!(context.len(), 2);
            assert_eq!(context[0].role, LlmRole::System);
            assert_eq!(context[0].content, "be brief");
            assert_eq!(context[1].role, LlmRole::User);
            assert_eq!(context[1].content, "test prompt");
        }
        AgentStep::Done => panic!("a prompt asks for a model call"),
    }
    assert_eq!(agent.state().phase, AgentPhase::Thinking);
    let due = agent.finish_prompt("test prompt", None);
    assert!(!due);
    assert_eq!(agent.state().phase, AgentPhase::Idle);
    assert_eq!(agent.state().message_count, 1);
    assert_eq!(agent.state().short_term.back().unwrap().content, "[echo] test prompt");
    assert_eq!(agent.state().short_term.back().unwrap().role, "assistant");

    agent.begin_message(AgentMessage::UserPrompt("again".to_string()));
    let reply = LlmResponse { content: "hi".to_string(), prompt_tokens: Some(3), completion_tokens: Some(4), total_tokens: Some(7) };
    agent.finish_prompt("again", Some(reply));
    assert_eq!(agent.state().token_usage, 7);
    assert_eq!(agent.state().short_term.back().unwrap().content, "hi");
    let ctx = agent.llm_context();
    assert_eq!(ctx.len(), 5);
    assert_eq!(ctx[2].role, LlmRole::Assistant);
}

#[test]
fn test_agent_phases() {
    let mut agent = AgentActor::new("a");
    agent.begin_message(AgentMessage::ApprovalResult { approved: true, comment: None });
    assert_eq!(agent.state().phase, AgentPhase::Idle);
    agent.begin_message(AgentMessage::RequestApproval { description: "deploy?".to_string() });
    assert_eq!(agent.state().phase, AgentPhase::AwaitingHuman);
    agent.begin_message(AgentMessage::ApprovalResult { approved: true, comment: Some("ok".to_string()) });
    assert_eq!(agent.state().phase, AgentPhase::Executing);
    agent.begin_message(AgentMessage::RequestApproval { description: "again?".to_string() });
    agent.begin_message(AgentMessage::ApprovalResult { approved: false, comment: None });
    assert_eq!(agent.state().phase, AgentPhase::Idle);
    agent.begin_message(AgentMessage::StreamChunk("tok".to_string()));
    assert_eq!(agent.state().phase, AgentPhase::Streaming);
    agent.begin_message(AgentMessage::StreamEnd);
    assert_eq!(agent.state().phase, AgentPhase::Idle);
    agent.begin_message(AgentMessage::ToolResult { tool_name: "test_tool".to_string(), output: "result".to_string() });
    let last = agent.state().short_term.back().unwrap();
    assert_eq!(last.role, "tool");
    assert_eq!(last.content, "result");
    assert_eq!(last.metadata.as_ref().unwrap()["tool"], "test_tool");
    agent.begin_message(AgentMessage::SpawnSubAgent { name: "helper".to_string(), config: serde_json::Value::Null });
    assert_eq!(agent.state().short_term.back().unwrap().content, "spawn sub-agent: helper");
    assert_eq!(agent.state().message_count, 0);
}

#[test]
fn test_agent_checkpoints() {
    let mut plain = AgentActor::new("no-store");
    assert!(plain.next_checkpoint().is_none());

    let mut agent = AgentActor::new("saver").with_checkpoint_store(CheckpointStore::new(PathBuf::from("checkpoints"))).with_checkpoint_interval(2);
    agent.begin_message(AgentMessage::UserPrompt("one".to_string()));
    assert!(!agent.finish_prompt("one", None));
    agent.begin_message(AgentMessage::UserPrompt("two".to_string()));
    assert!(agent.finish_prompt("two", None));
    let cp = agent.next_checkpoint().unwrap();
    assert_eq!(cp.version, 1);
    assert_eq!(cp.state.message_count, 2);
    assert_eq!(cp.actor_id.name, "saver");
    let cp2 = agent.next_checkpoint().unwrap();
    assert_eq!(cp2.version, 2);

    let mut restored = AgentActor::new("saver").with_checkpoint_store(CheckpointStore::new(PathBuf::from("checkpoints")));
    restored.restore(cp);
    assert_eq!(restored.state().message_count, 2);
    assert_eq!(restored.next_checkpoint().unwrap().version, 2);
}

#[test]
fn test_checkpoint_file_names() {
    assert_eq!(CheckpointStore::file_name(1), "checkpoint_000001.json");
    assert_eq!(CheckpointStore::file_name(1234567), "checkpoint_1234567.json");
    assert_eq!(CheckpointStore::version_of("checkpoint_000010.json"), Some(10));
    assert_eq!(CheckpointStore::version_of("checkpoint_+7.json"), Some(7));
    assert_eq!(CheckpointStore::version_of("checkpoint_.json"), None);
    assert_eq!(CheckpointStore::version_of("checkpoint_12a.json"), None);
    assert_eq!(CheckpointStore::version_of("notes.txt"), None);
    assert_eq!(CheckpointStore::version_of("checkpoint_99999999999999999999.json"), None);
    let names = vec![
        "checkpoint_000002.json".to_string(),
        "readme".to_string(),
        "checkpoint_000010.json".to_string(),
        "checkpoint_10.json".to_string(),
    ];
    assert_eq!(CheckpointStore::latest(&names), Some((10, 2)));
    assert_eq!(CheckpointStore::latest(&vec!["x".to_string()]), None);
    let id = ActorId { id: 0x0123456789abcdef0123456789abcdefu128, name: "n".to_string() };
    assert_eq!(CheckpointStore::actor_dir_name(&id), "01234567-89ab-cdef-0123-456789abcdef");
    assert_eq!(
        CheckpointStore::actor_dir_name(&id),
        uuid::Uuid::from_u128(id.id).to_string()
    );
}

#[test]
fn test_text_helpers() {
    assert_eq!(decimal(0), "0");
    assert_eq!(decimal(18446744073709551615), "18446744073709551615");
    assert_eq!(decimal_zero_padded(42, 6), "000042");
    assert_eq!(parse_u64("18446744073709551615"), Some(u64::MAX));
    assert_eq!(parse_u64("18446744073709551616"), None);
    assert_eq!(parse_u64("+"), None);
    assert_eq!(parse_u64("-1"), None);
    assert_eq!(trim("  \t hi there \n"), "hi there");
    assert_eq!(trim("   "), "");
}

#[test]
fn test_json_parser() {
    let parser = JsonParser;
    let content = "\n    I will calculate this for you.\n    ```json\n    {\n        \"tool\": \"calculator\",\n        \"args\": {\n            \"expression\": \"10 + 20\"\n        }\n    }\n    ```\n    ";
    let call = parser.parse(content).unwrap();
    assert_eq!(call.name, "calculator");
    assert_eq!(call.args["expression"], "10 + 20");
    assert!(parser.parse("plain text").is_none());
    assert!(parser.parse("{\"tool\": 3, \"args\": {}}").is_none());
    let bare = parser.parse("{\"tool\": \"t\", \"args\": [1]}").unwrap();
    assert_eq!(bare.name, "t");
    assert_eq!(JsonParser::json_candidate("x ```json\n {} \n``` y"), "{}");
    assert_eq!(JsonParser::json_candidate("x ```json {}"), "x ```json {}");
}

#[test]
fn test_json_tool_call() {
    let v: serde_json::Value = serde_json::from_str("{\"tool\": \"search\", \"args\": {\"q\": \"rust\"}}").unwrap();
    let call = JsonParser::tool_call(&v).unwrap();
    assert_eq!(call.name, "search");
    assert_eq!(call.args["q"], "rust");
    let no_args: serde_json::Value = serde_json::from_str("{\"tool\": \"search\"}").unwrap();
    assert!(JsonParser::tool_call(&no_args).is_none());
    let not_object: serde_json::Value = serde_json::from_str("[1, 2]").unwrap();
    assert!(JsonParser::tool_call(&not_object).is_none());
    let unclosed = JsonParser.parse("```json {\"tool\": \"t\", \"args\": 1}");
    assert!(unclosed.is_none());
}

#[test]
fn test_calculator_operands() {
    let (a, b) = CalculatorTool::operands(" 10 + 20 ").unwrap();
    assert_eq!((a.as_str(), b.as_str()), ("10", "20"));
    let (a, b) = CalculatorTool::operands("1+2+3").unwrap();
    assert_eq!((a.as_str(), b.as_str()), ("1", "2"));
    assert!(CalculatorTool::operands("42").is_none());
    assert_eq!(CalculatorTool.name(), "calculator");
}

#[test]
fn test_llm_messages() {
    let s = LlmMessage::system("sys");
    let u = LlmMessage::user("usr");
    let a = LlmMessage::assistant("asst");
    assert_eq!((s.role, s.content.as_str()), (LlmRole::System, "sys"));
    assert_eq!((u.role, u.content.as_str()), (LlmRole::User, "usr"));
    assert_eq!((a.role, a.content.as_str()), (LlmRole::Assistant, "asst"));
}

fn ctx_with_child(child: &ActorId) -> ActorContext<String> {
    let id = ActorId::new("sup");
    let (_mb, sender) = Mailbox::<String>::new(4);
    let mut ctx = ActorContext::new(id.clone(), ActorRef::new(id, sender), Arc::new(Environment::new()));
    let (_mb2, s2) = Mailbox::<String>::new(4);
    ctx.register_child(child.clone(), ActorRef::new(child.clone(), s2));
    ctx
}

#[test]
fn test_supervisor_decisions() {
    let sup = Supervisor::new("sup", SupervisionStrategy::default());
    let child = ActorId::new("child");
    assert_eq!(sup.max_retries(), 3);
    assert_eq!(sup.decide(&child, Some(&FailureKind::critical()), 0), SupervisionDecision::Stop);
    assert_eq!(sup.decide(&child, Some(&FailureKind::transient()), 2), SupervisionDecision::Restart);
    assert_eq!(sup.decide(&child, Some(&FailureKind::transient()), 3), SupervisionDecision::Escalate);
    assert_eq!(sup.decide(&child, Some(&FailureKind::logic("x")), 1), SupervisionDecision::Resume);
    assert_eq!(sup.decide(&child, Some(&FailureKind::logic("x")), 3), SupervisionDecision::Stop);
    assert_eq!(sup.decide(&child, None, 1), SupervisionDecision::Restart);
    assert_eq!(sup.decide(&child, None, 3), SupervisionDecision::Stop);

    let all = Supervisor::new("all", SupervisionStrategy::AllForOne { max_retries: 2, within_secs: 10 });
    assert_eq!(all.decide(&child, None, 2), SupervisionDecision::Escalate);
    let stop = Supervisor::new("stop", SupervisionStrategy::Stop);
    assert_eq!(stop.decide(&child, None, 0), SupervisionDecision::Stop);
    assert_eq!(stop.decide(&child, Some(&FailureKind::transient()), 0), SupervisionDecision::Escalate);
    let esc = Supervisor::new("esc", SupervisionStrategy::Escalate);
    assert_eq!(esc.decide(&child, None, 0), SupervisionDecision::Escalate);
}

#[test]
fn test_supervisor_handles_messages() {
    let mut sup = Supervisor::new("sup", SupervisionStrategy::default());
    let child = ActorId::new("child");
    let mut ctx = ctx_with_child(&child);
    let d = sup.handle(
        SupervisorMessage::ChildFailed { child_id: child.clone(), error: "boom".to_string(), failure_kind: None, retry_count: 1 },
        &mut ctx,
    );
    assert_eq!(d, Some(SupervisionDecision::Restart));
    assert!(ctx.child(&child).is_some());
    let d = sup.handle(
        SupervisorMessage::ChildFailed { child_id: child.clone(), error: "boom".to_string(), failure_kind: Some(FailureKind::critical()), retry_count: 1 },
        &mut ctx,
    );
    assert_eq!(d, Some(SupervisionDecision::Stop));
    assert!(ctx.child(&child).is_none());

    let mut ctx2 = ctx_with_child(&child);
    assert_eq!(sup.handle(SupervisorMessage::QueryChildren, &mut ctx2), None);
    assert!(ctx2.child(&child).is_some());
    assert_eq!(sup.handle(SupervisorMessage::ChildStopped { child_id: child.clone() }, &mut ctx2), None);
    assert!(ctx2.child(&child).is_none());
    assert_eq!(sup.name(), "sup");
}

#[test]
fn test_environment_loads_prefixed_vars() {
    let mut env = Environment::new();
    let vars = vec![
        ("AGENTOR_MODEL".to_string(), "gpt-4".to_string()),
        ("OTHER".to_string(), "x".to_string()),
        ("AGENTOR_Temperature".to_string(), "0.2".to_string()),
    ];
    env.load_vars("AGENTOR_", &vars);
    assert_eq!(env.get_config("model"), Some("gpt-4".to_string()));
    assert_eq!(env.get_config("temperature"), Some("0.2".to_string()));
    assert_eq!(env.get_config("other"), None);
    assert_eq!(env.get_config("OTHER"), None);
}

#[test]
fn test_agent_actor_message_handling() {
    let mut agent = AgentActor::new("test-planner");
    let step = agent.begin_message(AgentMessage::UserPrompt("test prompt".to_string()));
    assert!(matches!(step, AgentStep::CallModel { .. }));
    agent.finish_prompt("test prompt", None);
    let step = agent.begin_message(AgentMessage::ToolResult { tool_name: "test_tool".to_string(), output: "result".to_string() });
    assert!(matches!(step, AgentStep::Done));
    // plain text arrives as a user prompt
    let step = agent.begin_message(AgentMessage::UserPrompt("plain text".to_string()));
    assert!(matches!(step, AgentStep::CallModel { .. }));
    agent.finish_prompt("plain text", None);
    let contents: Vec<&str> = agent.state().short_term.iter().map(|m| m.content.as_str()).collect();
    assert_eq!(contents, vec!["test prompt", "[echo] test prompt", "result", "plain text", "[echo] plain text"]);
    assert_eq!(agent.state().message_count, 2);
    assert_eq!(agent.state().phase, AgentPhase::Idle);
}

#[test]
fn test_agent_with_state_and_long_term() {
    let mut state = AgentState::new(2);
    state.push_long_term(MemoryEntry::now("system", "remember this", None));
    state.push_short_term(MemoryEntry::now("user", "a", None));
    state.push_short_term(MemoryEntry::now("user", "b", None));
    state.push_short_term(MemoryEntry::now("user", "c", None));
    let agent = AgentActor::new("stateful").with_state(state);
    assert_eq!(agent.state().long_term.len(), 1);
    assert_eq!(agent.state().long_term[0].content, "remember this");
    let kept: Vec<&str> = agent.state().short_term.iter().map(|m| m.content.as_str()).collect();
    assert_eq!(kept, vec!["b", "c"]);
}

#[test]
fn test_whitespace_matches_std() {
    for n in 0u32..=0x10FFFF {
        if let Some(c) = char::from_u32(n) {
            assert_eq!(char_is_whitespace(c), c.is_whitespace(), "code point {:#x}", n);
        }
    }
}
