# ORE Boost, verified

ORE Boost is a liquidity mining program for earning yield on staked assets. This crate holds
its logic with contracts proved by Verus.

## Layout

- `src/` — the verified library (`ore_boost`)
  - `numeric.rs` — fixed-point numbers (80.48 bits); the arithmetic is done by `steel::Numeric`.
  - `pubkey.rs`, `hash.rs`, `chain.rs` — addresses, Keccak hashing, the ORE proof, clock and
    token accounts the program reads.
  - `state/` — the accounts (boost, config, stake, checkpoint, directory, leaderboard), the
    rewards accounting, the account byte layouts and the laws about them.
  - `instruction.rs`, `loaders.rs`, `sdk.rs` — instruction data, account checks, program
    addresses and instruction builders.
  - `program/` — the instructions: admin, directory, staking, checkpoint rebase, miner
    selection, migrations.
  - `reserves.rs` — the check that a boost's reserves cover what its stakers are owed.
  - `cli.rs` — the admin tool's arguments and the instructions they build.
  - `worker/` — the checkpoint worker's decisions: its loop as a state machine, bundle
    planning and confirmation, lookup-table planning.
- `app/` — ordinary Rust around the library: clap argument types, the float-based proof
  score, the worker's loop driver, lookup-table file handling and report printing.
- `tests/` — tests of the library.
