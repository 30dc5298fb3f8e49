# accountability_vault

A time-locked capital vault for Stellar. Its funds go to `success_destination`
on `claim`, once every milestone is verified, or to `failure_destination` on
`slash_on_miss`, once the deadline has come without full verification. It is
settled at most once.

| Entry point | What it needs |
|---|---|
| `initialize` | the creator's signature |
| `check_in` | the verifier's signature, an active vault, a milestone of the vault with no check-in yet |
| `claim` | an active vault with all milestones verified |
| `slash_on_miss` | an active vault whose `end_timestamp` has come, with a milestone not verified |
| `get_vault` | a vault |
| `get_check_in` | a vault and a check-in of that milestone |

A call that lacks what it needs is aborted with the text of its `VaultError`.

## Storage TTL

Every write or read of an active vault extends the life of the vault, and of
the check-in that it writes or reads, to `(end_timestamp - now) / 5` ledgers: at
least 17,280, and at most the largest `u32`. Entries of a settled vault are not
extended.

## Settlement event

Topic `["settle"]`, data
`(released_amount, slashed_amount, verified_count, final_status)`, where
`final_status` is `completed` or `slashed`.

## Layout

- `src/` is the library, written and proved in Verus. It decides: each entry
  point of `AccountabilityVault` (`src/contract.rs`) turns what is stored and
  the time of the ledger into an `Outcome`, which lists the host actions to
  perform in order and the reply. `src/ledger.rs` says what the actions do to a
  ledger, `src/effects.rs` sums up each call, and `src/laws.rs` proves what
  holds over all calls. `src/sdk.rs` holds all that is taken on trust of
  `soroban_sdk`.
- `app/` is the Soroban contract around it: it loads the entries, performs the
  actions, and panics on a refusal, so that the host rolls the call back.
- `tests/` runs the library on given values and on a Soroban test host.
