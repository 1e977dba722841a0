# stellar_lend

Verified core logic of the StellarLend protocol, written in Verus.

## Layout

- `src/` — the verified library.
  - `bridge.rs` — cross-chain bridge: validator-set rotation under a
    supermajority quorum of Ed25519 signatures (for an identified bridge,
    bound to a purpose tag and to the bridge's id), guardian-gated pausing of
    validators, and a rolling-window cap on inbound value.
  - `crypto.rs` — the outside computations the bridge relies on, each
    behind a trusted wrapper: `ed25519-dalek` signature checks (a named
    result) and the `bincode` encodings of the rotation payloads (stated
    byte by byte).
  - `bytes.rs`, `text.rs` — byte-list and text helpers (distinct-key
    counting, hex and decimal rendering).
  - `admin.rs` — protocol admin handover with safety guards.
  - `governance.rs` — proposals, voting, guardians and admin recovery.
  - `token_receiver.rs` — admission rules of the lending contract's
    token-aware `receive` entrypoint.
  - `schedule.rs` — linear and milestone vesting schedules.
  - `vesting.rs` — the grant book: claims, acceleration, revocation and
    grant transfer with token accounting.
- `tests/` — tests run against the compiled library.
- `app/` — host-side glue: typed Ed25519 keys, serde records and `anyhow`
  errors for the bridge; Soroban storage, authentication, events and token
  calls for the admin handover and the token receiver.

Each public function states its behaviour in `requires` / `ensures`; the
laws that relate several operations are public proof functions whose names
begin with `law_`.
