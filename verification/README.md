# hyperliquid_ws

A client that trades on the Hyperliquid exchange over a WebSocket, with its protocol
verified by Verus.

- `src/` is the protocol: coins and their indices (`meta.rs`), orders, cancels and changes
  (`exchange/order.rs`, `exchange/cancel.rs`, `exchange/modify.rs`), what is hashed and
  signed (`signature.rs`), the steps from an action to a request
  (`exchange/ws_exchange.rs`), the requests that wait (`exchange/requests.rs`), what becomes
  of a frame (`exchange/messages.rs`) and of the connection (`exchange/connection.rs`).
  `exchange/laws.rs` states and proves what holds of requests and responses,
  `exchange/reader_laws.rs` what holds of the reader from its start to its end, and
  `exchange/call_laws.rs` what holds of the calls that send requests meanwhile.
- `app/` is the connection itself: the tasks on it, JSON and MessagePack, and HTTP.
- `tests/` runs the library.

Keccak-256 and ECDSA are those of `ethers`; the library claims of them only that their
results depend on their arguments alone.
