# revora

A revenue-share contract for tokenized offerings on Soroban, with its rules
verified by Verus.

Issuers register offerings, report and deposit revenue per period, and
holders claim their share of the deposited revenue. Around that sit the admin
and safety roles (pause, freeze), a multisig for sensitive actions, two-step
issuer transfers, per-offering blacklists and whitelists, concentration
limits, claim delays, snapshot-based deposits, metadata and aggregation
queries.

## Layout

- `src/` — the verified library. The contract state is a plain value
  (`RevoraRevenueShare`) with a mathematical view (`RevoraView`). Every
  entrypoint states exactly when it succeeds, what it returns, how the state
  changes and which host calls (events, token transfers) it queues; a failed
  entrypoint leaves state and queue untouched. `laws.rs` states properties of
  the contract as a whole.
- `tests/` — tests of the library on concrete values.
- `app/` — a host binding over `soroban_sdk` that drives the library from
  a Soroban environment: address conversion, authorization, ledger time,
  token transfers and event publishing. It keeps the contract state in
  memory; it is not a deployable `#[contract]` and does not use ledger
  storage.
