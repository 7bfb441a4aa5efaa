# twotter

A small microblogging service: a server that keeps users, twotts and
subscriptions in redis, and a window client. The crate is a Verus library
that holds the decisions of both, proved against their contracts; `app/`
runs them.

- `src/data.rs` — the messages that client and server exchange.
- `src/feed_entry.rs` — stored twott members (`author:<a>:twott:<t>`):
  building them and splitting them back, with the round-trip law.
- `src/database.rs` — the database task as a step function: a request, or
  the store's reply to the last command, gives the next store command or
  the answer. Laws on identities, registration and feed pages.
- `src/session.rs` — the decisions of one server connection.
- `src/framing.rs` — newline framing of the JSON messages, through the line
  codec of `tokio_util`.
- `src/client.rs` — the client's screen logic as a step function over user
  messages, connection outcomes and server replies, with its laws.
- `app/` — the server's sockets, redis and tokio plumbing, the client's
  window (iced) and socket, and the serde copies of the message types.
  `twotter server` runs the server, `twotter client` the window.
