# jds_mempool

A mempool for a job declaration server, filled from a bitcoin node over
JSON-RPC, written in Verus.

- `src/rpc.rs`: credentials, the requests sent to the node, the
  `Authorization` header, and how the node's answers and HTTP statuses are
  read into results or errors.
- `src/transaction.rs`: decoding the hexadecimal text of a raw transaction.
- `src/encoding.rs`: base64 and hexadecimal, with their specifications.
- `src/mempool.rs`: the mempool and its refresh, step by step, with the
  lemmas on what a refresh keeps.
- `app/`: the HTTP calls (hyper, reqwest), JSON (serde), and the program.
