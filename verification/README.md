# bunnieverse

A GTK timeline client for Misskey instances. The library (`src/`) holds the
client's logic, verified with Verus; `app/` holds the window, the network
and the server connection around it.

- `src/model/` — users and notes as the timeline shows them, read from the
  server's data (`import_user`, `import_note`, handles, avatars).
- `src/timeline.rs` — the timeline's notes and how messages change them;
  layout decisions for its entries.
- `src/http.rs` — the avatar cache that decides when to download an avatar
  and how to answer requests for it.
- `src/api.rs` — the decisions taken while the home timeline is preloaded.
- `src/asset.rs` — the asset fetcher's cache.
- `src/payload.rs` — the byte buffers of the `bytes` crate, by contents.
