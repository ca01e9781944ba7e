# p-token

A token program for the Solana blockchain (mints, token accounts, multisig
owners, delegation, freezing, wrapped SOL, batches of instructions), written as
Rust verified with Verus.

Accounts are plain values: `AccountInfo` holds an account's key, owner,
lamports, data bytes and signer flag, and every processor takes the list of
accounts of an instruction and changes it as the instruction does. Each
processor's contract says exactly what it returns and what the accounts become,
through a specification function over the accounts' views (for example
`transfer_result`); a failed instruction leaves the accounts unchanged.

Layout:

- `src/state/`: the byte layouts of token accounts (165 bytes), mints (82 bytes)
  and multisigs (355 bytes), with their fields read and written in place.
- `src/processor/`: one module per instruction; `shared/` holds the processors
  common to an instruction and its checked variant; `batch.rs` runs several
  instructions in one.
- `src/entrypoint.rs`: decoding the instruction data and dispatching.
- `src/admissible.rs`: deciding the inputs on which the program would panic
  (see `try_process_instruction`).
- `src/rent.rs`: the rent sysvar and the rent-exempt minimum balance.
- `src/laws.rs`: laws of the instructions, proved over their specifications
  (tokens are conserved by transfers, thawing undoes freezing, a UI amount
  reads back as its amount, ...).
- `app/`: the on-chain entrypoint, which reads the runtime's accounts and rent
  sysvar, runs the library and writes the accounts and return data back.
