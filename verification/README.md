# sol_tx_dispacher

Slot-aware dispatch of Solana transactions. Who leads a slot decides how a
transaction is best sent: some leaders rank by tip, some by compute price, some
work first come, first served. The library looks the leader up, picks a route and
lays out a plan: which platform gets the transaction, with which tip and which
fee, in which order. All of it is verified with Verus.

## Layout

`src/` is the verified library.

- `leader`, `fifo`: what is known of a leader, and the route that follows.
- `platform`, `builder`: the platforms, their clients and how they are registered.
- `tip`, `fee`: tips, prices, priority fees and budgets.
- `plan`: shots, offers, and volleys over a lineup of platforms.
- `strategy`, `strategy_v1`: the plans for version 0 and version 1 transactions.
- `dispatcher`: from a slot to a plan.
- `guarantees`, `guarantees_v1`: what holds of every plan.
- `context`: payer, hash and address lookup tables.
- `fire`, `bundle`, `failure`: what is watched, bundles on several platforms, and
  how a send fails.
- `binary64`, `rounding`: ratios as IEEE 754 binary64 numbers, given by their bits,
  with integer arithmetic only.
- `key`: accounts, hashes and signatures as bytes.
- `outside`: what the library relies on in `ahash` and `solana-sdk` without proof.

`app/` is ordinary Rust around the library. It asks the leader schedule, builds and
signs the transactions, hands them to the platforms and waits for a confirmation.
It needs `sol_tx_send`, `sol_slot_leader`, `nonce_cache`, `grpc_client` and
`solana_client`.

`tests/` runs the library.
