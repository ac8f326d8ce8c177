# baco

The core of the BACO security scanner as a verified library: the
24-phase pipeline and its scheduling, checkpoint and resumption
decisions, semgrep output parsing, structural de-duplication of
findings, the seven-question triage gate, the LLM orchestration phases'
decisions (hunt merging, independent confirmation, validation batches),
the LLM call budget, discovery and agent verification updates, verdict
parsing, and auto-patching.

- `src/` is verified with Verus: every public function states its
  result in `requires`/`ensures` over spec functions and views, and the
  laws that relate several functions are proof functions (`law_*`).
  Calls into `serde_json`, `sha2`, `hex`, `regex` and a few `std`
  methods go through trusted wrappers with documented contracts.
- `app/` is the unverified shell: file, process and clock I/O,
  serialisation of checkpoints, floating-point severity scoring, and the
  loops that drive the phases and model calls.
- `tests/` exercises the library on concrete values.
