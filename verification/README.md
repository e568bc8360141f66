# mini_magentic

A small multi-agent task planner: a planner turns a request into a plan of
steps for a team of agents, an orchestrator walks the team through the plan,
and a web agent drives a browser one tool call at a time.

The decisions are a library verified with Verus (`src/`); the program around
it (`app/`) does the I/O: the command line, the HTTP service, the model and
WebDriver requests, and the message channels.

## Layout

- `src/` — the verified library
  - `message`, `plan`, `json`, `string_map`, `assoc`, `text`: data model and
    string utilities
  - `plan_agent`, `planner`, `prompt`, `orchestrator`: planning, plan editing,
    progress ledgers and the prompts sent to the model
  - `web_agent`, `web_page`, `url_status`, `set_of_mark`, `tool_metadata`:
    the browser agent's tool dispatch, page descriptions, site policy and
    element ids
  - `llm_client`: the chat API message form, reply reading and retry delays
  - `team`: subscriptions and message delivery between agents
  - `tasks`, `documents`, `py_client`, `records`, `routes`, `cli`, `web_types`:
    task records and events, document pages, service bodies and CLI output
- `tests/` — tests run against the compiled library
- `app/` — the executable: `cli` (default) or `web [--port N]`

Contracts are stated over spec functions and views; laws that relate several
operations are public proof functions named `lemma_*`.
