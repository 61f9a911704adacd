# midl-escalator

Two parts of an Ethereum client, verified with Verus:

- Midl transactions (type 0x07). They are written in RLP, unsigned and signed, and read back;
  the sender of a signed one is told from its signature. What is read back of what was written
  is stated by `decode` and `decode_signed_rlp`; `midl_laws` and `rlp_laws` hold what follows
  for the encodings as such.
- Gas escalation. Transactions that are stuck are sent again with higher fees.
  `gas_escalator::round` decides this as a state machine: it asks for what it needs to know
  (a receipt, a price, the outcome of a broadcast) and goes on when it is told.
  `gas_escalator::outcome` says what a whole round comes to for each transaction.

`src/` is the verified library. The crates `rlp`, `ethereum-types`, `k256`, `tiny-keccak` and
`instant`, and one function of std, are called from it behind small functions in `codec`,
`signature`, `gas_escalator::monitored` and `gas_escalator::sending`, whose contracts are
believed. `app/` holds the JSON form and the background task, `tests/` the tests.
