# whoami

A libp2p "whoami" service: a client opens a `/whoami/0.0.1` stream to a
server, sends a CBOR request naming itself, and the server answers with a
first and an optional last name.

- `src/` is the Verus-verified library: the user-agent text format
  (`user_agent.rs`), the messages (`message.rs`), the receive buffer and the
  decisions of a stream exchange (`exchange.rs`), the translation of a URL
  into a multiaddress (`address.rs`) and small text helpers (`text.rs`).
- `app/` holds the network side: CBOR encoding through serde, the async
  stream exchanges, and the client and server programs.
- `tests/` exercises the library on concrete values.
