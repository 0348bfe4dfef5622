# rewave

A small JSON-over-TCP request/response server core.

- `src/` is the verified library, with contracts and proofs: user
  permissions (`auth`), the request and response data model (`data`), gathering a message from a stream in
  `BUFFER`-sized reads (`buffer`), and the per-connection request loop as a
  state machine (`wave`).
- `app/` is the unverified I/O side: the serde copies of the data types for
  the JSON wire format, the tokio stream reader and TCP server that run the
  verified state machines, and the `Rewave` handler trait.
- `tests/` exercises the library on concrete values.
