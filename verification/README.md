# Refract

Parametric insurance settled by oracle readings, verified with Verus.

Capital providers put USDC into a pool and get shares of it. The pool sells policies, each of which
pays its whole coverage once a reading meets its trigger, and prices them by size, time and risk. A
registry indexes the policies by holder. An oracle collects readings from admitted relayers.

All amounts are integers scaled by 1e7. Nothing here uses floating point.

## Layout

| Path | What it holds |
|---|---|
| `src/pool/` | The pool: `model.rs` says what each call makes of the state, `contract.rs` does it, `pricing.rs`, `history.rs` and `laws.rs` prove what follows |
| `src/policy/` | The registry, laid out alike |
| `src/oracle/` | The oracle, laid out alike |
| `src/mirror.rs` | What holds of the pool and the registry together |
| `src/host.rs` | What is believed of the host's lists and maps (`soroban_sdk`); everything else is proved |
| `src/lists.rs`, `src/table.rs`, `src/ident.rs`, `src/address.rs`, `src/math.rs` | What the contracts are built from |
| `src/sums.rs`, `src/seqs.rs` | Lemmas about sums and sequences |
| `app/` | The contracts on the ledger: storage, authorization, token transfers, events |
| `tests/` | Scenarios, run against the real host |

## How a call works

A contract is a plain value: what it keeps in storage, and a list of effects. A call takes the
ledger's time where it matters, changes the value, and appends what the host has to do, in order:
ask for an authorization, move tokens, call the registry, publish an event. The ledger side in
`app/` reads the entries that a call touches, makes the call, carries out the effects and writes the
entries back.

Amounts that do not fit an `i128` end a call on the ledger. Here they are a precondition: each call
that can overflow has a function of the same name ending in `_fits` that says whether it can be
computed (`checked_stats` for `pool_stats`). `pool/laws.rs` shows, under "Limits", that deposits,
withdrawals, premiums, purchases and settlements of a valid pool fit while the amounts and totals
they touch are at most a hundred billion USDC and their times, ids and lists have room. The summary
fits where the pool is also solvent and its base rate is at most 100%.
