# ClipShare

Share clipboard content between devices on a local network: a server keeps
the most recently posted clipboard entry (text, or base64 images and files)
behind bearer-token authentication, and a client polls it and hands new
entries to the local clipboard or to disk.

Layout:

- `src/` — the library, verified with Verus:
  - `server/` — entry model, request handling (`POST`/`GET /clipboard`
    decisions), bearer authentication, configuration;
  - `client/` — configuration, reading server replies, planning clipboard and
    file writes, the polling daemon's state machine;
  - `content.rs` — the model of an entry shared by server and client;
  - `text.rs` — string helpers (prefix/infix search, decimal text, parsing);
  - `encoding.rs`, `clock.rs` — base64 and the system clock behind trusted
    wrappers;
  - `token_gen.rs` — generation of the shared token.
- `app/` — the programs (`clipshare server|client|token-gen`): HTTP with
  axum and reqwest, JSON with serde, the system clipboard, files, logging.
- `tests/` — tests of the library.
