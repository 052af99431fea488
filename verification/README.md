# zk-strategy-verify

Verifier for zero-knowledge integrity proofs that a hidden systematic strategy
satisfies a declared gate policy. The verifier checks the journal a receipt
commits to; it never sees the strategy.

- `src/` — the verified library: the journal and policy types, the
  exposure-card and regime-panel consistency checks, `GatePolicy::evaluate`
  (the ordered conformance checks), `verify` (receipt backend, journal decoder,
  evaluation) and, in `src/laws.rs`, the properties every evaluation has.
- `tests/` — the conformance checks on concrete policies and journals.
- `app/` — the `check-journal` command line, with the JSON wire forms of the
  library's types and their error messages.
