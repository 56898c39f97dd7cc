# jmap_ws

The WebSocket connections of a JMAP client: how a connection is opened, which ids requests get, and
how each response finds whoever waits for it.

- `src/` is the library. It decides and computes, and states in contracts what it decides. Verus
  proves them, but for those of the few functions named below. `src/laws.rs` states what holds of a
  connection as a whole, and `src/stream.rs` what holds of the items of a plain one.
- `app/` is the part that talks to the network: tokio, TLS and JSON around the library's decisions.
- `tests/` runs the library.

A connection is a state machine. `CorrelatedWs::send` says what is to be sent and lets a numbered
waiter wait for the response; `on_send_event`, `on_message` and `on_reader_event` say what is to be
done after each event; `shut_down` ends the connection.

What is believed without proof is confined to a few functions, each of which names the outside
function that it calls: the hash map of `ahash` (`src/pending.rs`), the handshake request of
`tungstenite` and its headers (`src/handshake.rs`), and how a duration is put in words
(`src/timeout.rs`).
