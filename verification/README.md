# nfs41server

The core of an NFSv4.1 server (RFC 8881) over ONC RPC (RFC 5531), written in
Verus: what the server decides on each message is proved against its
contract.

## Layout

- `src/xdr.rs` — XDR encoding: the bytes that writing a value gives
  (`spec_emit`), what reading bytes gives back (`spec_parse`), and the
  lemmas that reading what was written gives the value back.
- `src/rpc.rs` — RPC messages, the replies the server builds, and taking a
  frame from a client as a call (`receive`).
- `src/connection.rs` — record marking: fragment headers and joining
  fragments into frames.
- `src/nfs/` — the NFSv4.1 protocol: its data types and status codes
  (`types.rs`, `status.rs`, `ops.rs`), attribute bitmaps and values
  (`attrs.rs`, `api/`), and taking a COMPOUND request (`connection.rs`).
- `src/server.rs`, `src/client.rs`, `src/session.rs` — the server's state
  and what `EXCHANGE_ID` and `CREATE_SESSION` do to it, and answering the
  operations of a request in turn (`serve`).
- `app/` — the network side: TCP connections, the loop that serves each
  client, and the asynchronous interface a file system implements.
- `tests/` — tests on concrete messages.
