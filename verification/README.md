# agentor

An actor runtime for AI agents, with its logic verified by Verus.

- `src/` is the verified library: the transactional mailbox (retry queue and
  dead letters), the actor registry with hibernation, supervision decisions,
  agent memory and message handling, checkpoint naming, token budgets with a
  circuit breaker, the trace buffer, stream interception, and the deployment
  workflow's state machine and version history. Calls into tokio, uuid,
  chrono and serde_json stand behind small trusted wrappers whose contracts
  say what those crates do.
- `app/` is the program around it: the tokio tasks that run actors, model
  calls through `llm-connector`, trace reporting to xtrace, checkpoint and
  state files, and the git and process work of the deployment tool.
- `tests/` exercises the library on concrete values.
