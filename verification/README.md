# mcp_promax_problem_solving

A Model Context Protocol server that offers problem-solving frameworks as
tools over JSON-RPC on stdin/stdout, written as a Verus library with a thin
program around it.

- `src/json.rs` — the JSON value the handler reads and builds, its model,
  member lookup (`get`) and `as_str`.
- `src/text.rs` — characters of a string, word search, and the lowercase form
  (through `str::to_lowercase`).
- `src/tools.rs` — the tool catalogue and the keyword-based recommendation of
  tools (`select_mental_models`).
- `src/prompts.rs` — the framework prompts and the answer of each tool.
- `src/rpc.rs` — requests, responses, and the answer to `initialize`,
  `tools/list` and `tools/call`.
- `src/laws.rs` — properties that span these functions, proved.
- `app/main.rs` — the process: reads lines, parses and prints JSON with
  serde_json, and hands each request to the library.
