# bettapay

The BettaPay payment protocol's two Soroban contracts — **governance**
(admin multisig, protocol fee configuration, anchors, system parameters)
and **settlement** (merchant registry, settlement rules, payment records with
their locked-in fee split, the admin timelock and recovery) — written as
state machines over plain values and verified with Verus.

## Layout

- `src/` — the verified library.
  - `governance.rs`, `settlement/` — each contract's storage as a struct, its
    abstract state (`@`), one spec function per entry point, and the
    executable entry points proved against them. Every call returns the
    effects it asks of the host: events to publish, addresses whose
    authorization is required, and a Wasm to install.
  - `governance_laws.rs`, `settlement/laws.rs`, `settlement/history.rs` —
    properties spanning several calls or whole histories of calls: pause round trips, what pausing blocks, read-after-write, orphaned
    payments, the governance fee ceiling, timelock ordering and parity with
    the direct calls, recovery.
  - `fees.rs` — the ceil-rounded fee split and its laws.
  - `errors.rs`, `error_codes.rs` — error enums, the shared code registry and
    its conformity laws.
  - `events.rs`, `types.rs`, `address.rs`, `multisig.rs`, `table.rs` — shared
    plain types, the multisig check and a keyed table.
  - `crypto.rs` — SHA-256 from the Soroban host (the only trusted call).
- `app/` — the contracts on the Soroban host: storage keys, `contracttype`
  wire types, authorization, event publication, the cross-contract fee
  lookup and the upgrade interface probe.
- `tests/` — scenario tests of both contracts through the library's API.
