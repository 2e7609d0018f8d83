# rbtorrent

The verified core of Rust bindings to libtorrent-rasterbar: everything the
bindings decide for themselves before or after a call into libtorrent,
stated as Verus contracts and proved.

## Layout

- `src/settings/` — the settings pack: a typed model of every setting
  (`PackView`), key-based access, merging and defaults, the validating
  setters (integer domains, host tokens, listen endpoints, bootstrap nodes,
  proxy and I2P groups, outgoing ports) with their getters, and the laws
  that tie them together (`laws.rs`: a read gives back what was written,
  each group reads back as written, resets and merges behave as
  documented).
- `src/alerts/` — alert records and the pending-request registry
  (`requests.rs`), a state machine matching response alerts to waiting
  requests, with its laws (fresh tokens, first-in first-out answers, what
  cancel, abort, removal, overflow and teardown release).
- `src/create.rs` — torrent-creation file entries and the validation of a
  creation request.
- `src/handle.rs`, `src/filter.rs`, `src/params.rs`, `src/info.rs`,
  `src/stats.rs`, `src/status.rs` — argument checks and value conversions
  around torrent handles, IP/port filters, torrent parameters, metadata
  queries and statistics.
- `src/types.rs`, `src/net.rs`, `src/error.rs` — hashes, info-hashes, piece
  bitfields, addresses and their C-boundary encoding, and errors.
- `app/` — the async plumbing around the registry (tokio oneshot channels
  behind a mutex).
- `tests/` — tests of the library on concrete values.
