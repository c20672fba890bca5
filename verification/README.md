# pye-cli

A daemon that pays pending bond payments on Solana for the Pye backend, with its
decisions verified by Verus.

- `src/` is the verified library:
  - `transfers.rs` plans the transfers (what each payment still owes), cuts them
    into transactions of at most 50 instructions, and runs each batch through
    sign, register, send, in that order;
  - `daemon.rs` decides on low-balance alerts and builds the heartbeat;
  - `api.rs` holds the backend's records, endpoints and response check;
  - `solana.rs` holds addresses, system-program transfer instructions and the
    signing payer, over the Solana crates;
  - `text.rs` trims, parses and writes decimal numbers; `error.rs` the errors.
- `app/` is the program: command line, HTTP calls, RPC calls and the loop.
- `tests/` exercises the library on concrete values.
