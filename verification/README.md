# floonet-name-authority

The name authority of a Floonet relay: `name@domain` identities for Nostr keys,
paid names and paid writing through GoblinPay, and a marketplace in which names
change hands against Grin payments.

- `src/` is the library, verified with Verus: configuration, first-run setup,
  signed requests, rate limits, the paywall, Grin payment proofs, and the
  handlers. A handler is a function of the request and of what has been learned
  for it so far; it names the next thing to find out or to do, or the answer.
- `app/` is the program: it binds the socket, runs the SQL, calls the Grin node
  and GoblinPay, and drives the handlers. `app/mixexit.rs` and `app/nip98.rs`
  are programs of their own.
- `tests/` runs the library with the real outside crates, on databases in
  memory.

What the outside crates compute (JSON, bech32, hexadecimal, hashes, signatures)
enters through wrappers whose contracts are believed, not proved; each says what
it claims. Everything else is proved.
