# incubator

Verified account logic of the Draggos incubator programs on Solana, written in
Verus.

- `src/incubator/`: the incubator program: creating the incubator and its
  slots, recording Draggo metadata, deposits, hatching and resets, with the
  laws its instructions keep (`laws.rs`).
- `src/controller/`: the controller program, which deposits into the
  incubator's next slot through its deposit authority.
- `src/escrow.rs`: the egg escrow program, which hatches its eggs every
  `capacity` deposits.
- `src/key.rs`, `src/seeds.rs`, `src/pda.rs`, `src/metadata.rs`: addresses,
  seeds, program-address derivation (solana-program) and token metadata
  decoding (mpl-token-metadata).
- `app/`: the Anchor programs around the library: account (de)serialization,
  account constraints, the clock, events and cross-program invocations.
