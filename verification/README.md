# acrawl_runtime

The runtime core of an LLM-driven browsing and crawling agent, written in
Verus: every function under `src/` carries a contract that Verus proves.

- `src/` — the verified library: conversation compaction and summaries,
  session JSON, configuration files and their merging, MCP server settings
  and readiness, settings and `config` commands, script validation, memory
  episodes and evidence, Markdown rendering, and report formatting.
- `tests/` — tests that run the library on concrete values.
- `app/` — the parts that touch the outside world (files, HTTP, the
  terminal, floating-point cost arithmetic); they read and write, and hand
  plain values to the library, which decides.
