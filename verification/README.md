# ccc_mcp

The verified core of the CCC toolkit: status payloads and their text,
LongWay checklists, specialist role routing and delegation plans, worker
launch and lifecycle records, config merging and upgrades, token usage, and
the Codex app panel.

- `src/` is the library. Every function there is verified by Verus against
  its `requires` / `ensures` contract; documents are modelled by `Json`,
  whose mathematical view is `JVal`. Laws that relate several functions are
  public proof functions (`lemma_*`).
- The few calls into outside crates (chrono for time, sha2 for digests,
  toml for config text) and into std where vstd gives no specification sit
  behind small trusted wrappers whose contracts say what those crates
  document.
- The full `ccc status` payload is assembled in `src/status_payload.rs`
  from the documents of a run (`StatusDocuments`): the run truth (next
  step, fan-in readiness, whether the run can advance) is decided there and
  every derived view is computed from it. Views produced by components that
  are not part of this project are taken as given documents.
- `app/` is the unverified edge: reading and writing files, spawning
  processes, the clock-driven loops, and conversion between `Json` and
  serde_json values.
- `tests/` run the library on concrete inputs.
