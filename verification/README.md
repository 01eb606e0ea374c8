# boltick

A verified model of the Boltick ticketing program for Solana: events with
a collection token, tiers of digital access, and tickets minted or sold as
one-of-a-kind tokens of the event's collection.

`src/` is the library, verified with Verus. Each instruction takes the
addresses and stored state of its accounts and gives back either the error
that refuses it or the new state together with the calls to make into the
token, metadata and system programs.

- `boltick.rs` — the instructions as the runtime runs them: account checks,
  handler, the calls into other programs (made by the caller), write-back;
  a refused instruction changes nothing. It also states
  what runs of instructions keep: events, tickets and tiers numbered one
  after another at addresses derived from distinct seeds (and distinct
  addresses, given that the runtime creates an account only where none is),
  and a configuration that changes only by its event count.
- `instructions/` — for each instruction its accounts, the checks on them in
  the order they are made, and its handler; `shared.rs` holds the calls that
  several handlers make.
- `contracts.rs` — the workspace's second program, `boltick-contracts`.
- `states.rs`, `cpi.rs` — account records and the calls, as values.
- `seeds.rs`, `pda.rs` — the seed lists of every account and the
  program-derived-address checks built on the SDK's derivation, associated
  token accounts included.
- `program_ids.rs` — the ids of the programs and sysvar an instruction
  takes, and the checks on them.
- `text.rs` — numbered ticket names; `errors.rs`, `constants.rs`, `keys.rs`.

`app/` is the on-chain program around the library: account types, the
runtime's account structures, and carrying out the calls that the library
decides on.
