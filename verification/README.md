# db_interface

A uniform interface to range-keyed table stores: a local `theban_db` store and
a remote `theban_db_server`, both offering bitmap and object tables keyed by
closed address ranges.

- `src/` is the verified library (Verus):
  - `range.rs`: the `Range` key type.
  - `error.rs`: `DBInterfaceError`, `DBResult`, and the mapping of codec errors.
  - `iter.rs`: `ManyRangeIter`, the reading of one table over many query
    ranges, as a state machine that asks for each range to be queried and hands
    out `(query range, stored range, data)` triples; `open_query` refuses a
    missing table.
  - `client.rs`: the instructions a server client sends for each operation and
    the reading of the server's answers.
- `app/` is ordinary Rust: the `DBInterface` trait, its implementation on the
  local store and on a socket client, the MessagePack object codec, and the
  conversions to the store's and server's own types.
- `tests/` runs the library on concrete values.
