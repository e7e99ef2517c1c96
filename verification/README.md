# liquifact_escrow

An invoice-financing escrow whose rules come with proofs: every operation
has an exact contract, and the properties that relate operations are
proved as laws.

An SME opens an escrow for one invoice with a funding target and a base
yield. Investors deposit (optionally committing to a lock for a higher tier
rate); reaching the target closes funding and writes an immutable close
snapshot. The SME then either withdraws the principal or settles at
maturity, after which investors claim principal plus yield. An open escrow
can be cancelled, after which investors are refunded. A legal hold blocks
deposits, settlement, withdrawal, claims, cancellation, dust sweeps and
beneficiary rotation (refunds of a cancelled escrow still go through), and
stray token dust can be swept to the treasury without touching principal
still owed.

Layout:

- `src/` — the verified library. `state.rs` holds the escrow and its
  invariant (`wf`: principal conservation, the close snapshot, fair yield
  ladders); `init.rs`, `funding.rs`, `settlement.rs`, `admin.rs`,
  `allowlist.rs`, `metadata.rs` hold the operations, each specified by an
  error function (which refusal, in which order) and a post-state function;
  `authorization.rs` says who must authorise each call; `laws.rs` states the
  properties that relate operations; `token.rs` moves the funding token and
  checks the balance movements it observes.
- `tests/` — scenarios run against the library.
- `app/` — a Soroban contract shell: storage, authorization, ledger readings,
  token transfers and events around the library.
