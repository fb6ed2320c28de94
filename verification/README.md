# slasettle

Two ledger contracts that let a service back its uptime promise with a bond:
`watcher_registry` keeps the set of eligible watchers, and `sla_vault` holds
providers' bonds and pays a fixed penalty to the beneficiary whenever a round
is confirmed down by a quorum of watcher votes.

Layout:

- `src/` is the verified library. Each contract is a state machine over an
  image of its ledger storage (`WatcherRegistry`, `SlaVault`); every entry
  point is a method whose contract equates the new state and the result with
  a spec function over the mathematical state (`RegistryState`,
  `VaultState`). The returned event names the token movement that the host
  carries out. `laws.rs` in each module proves the properties that span calls
  (one payout per round, payouts capped by the bond, pausing spares existing
  obligations, the watcher count tracks the watcher set, and so on).
- `app/` holds the Soroban contracts: they check signatures, load the storage
  entries a call reads into the library's state, run the library method,
  write the entries back, move tokens, call the registry, and publish events.
- `tests/` exercises the library on concrete values.
