# lightpool_clob_index

An indexer for a prediction-market order book chain: it follows blocks, files
markets and orders in an in-memory index, and serves them over HTTP and a
websocket.

- `src/` is the verified library (Verus). `indexer/store.rs` holds the index
  and its operations, each with a contract over the model in
  `indexer/model.rs`; `indexer/processor.rs` folds a block's events into the
  index and lists the book updates and user notices they call for;
  `indexer/laws.rs` states properties that span several operations;
  `routes.rs` holds what the endpoints decide.
- `tests/` runs the library on concrete values.
- `app/` is the service around it: the HTTP server, the websocket loop, the
  chain connection and the conversions from the chain SDK's types.
