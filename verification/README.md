# sidereth

The domain core of a legal case and incident management system, written in
Verus: typed resource references, lifecycles and state machines, registries,
authorization enforcement, evidence integrity, the tool execution boundary,
timelines and the persistence contracts that storage providers implement.

## Layout

- `src/` — the verified library. Every function carries a contract that
  Verus proves; state machines and registries state their laws as public
  proof functions (`lemma_*`) beside the code.
- `tests/` — executable tests of the library.

## Contracts of the provider traits

The traits that storage and tool providers implement (`UnitOfWorkContext`,
`UnitOfWork`, `IdempotencyStore`, `IdempotencyLifecycleStore`, `AuditSink`,
`AuditProvenanceSink`, `ToolGatewayProvider`) carry contracts over abstract
views of the provider's state: the writes and links a context accepted, the
claimed operation ids and their states, the records a sink holds, a
provider's identity and how many times it ran. The library's commands are proved against those
contracts; an implementation outside the library is expected to meet them,
which nothing here checks. `InMemoryAudit` implements its sinks in `src/`
and is proved to meet them.
- `app/` — what the verifier does not see: the PostgreSQL and local-file
  storage adapters, the JSON text bridge, and evidence metadata that carries
  floating-point capture coordinates.

## Outside crates

- `sha2` computes evidence digests and operation keys; the library calls it
  through one trusted wrapper (`evidence::sha256_digest`).
- `postgres`, `serde` and `serde_json` are used by the adapters in `app/`.
