# liquifier

A verified library for the Liquifier Solana program, in which the NFTs of one
collection are exchanged for a fixed amount of a fungible token and back.

- `src/` holds the program's rules, proved with Verus: the account
  constraints of each instruction (`instructions/*::validate`), the
  instruction handlers (`instructions/*::handler`), the instructions as a
  whole (`liquifier.rs`), the state (`state.rs`), the model of token metadata
  (`metadata.rs`), the calls an instruction asks for (`action.rs`), and laws
  that span instructions (`laws.rs`). Address derivation, base58 decoding,
  associated token addresses and metadata decoding are done by the Solana
  crates, through a few trusted functions in `address.rs`, `pda.rs` and
  `metadata.rs`.
- `app/` hosts the library as an Anchor program: it reads accounts into plain
  values, asks the library for an instruction's outcome, performs the
  cross-program calls it lists and writes the state back.
- `tests/` runs the library on concrete accounts.
