//! ClipShare: share clipboard content between devices over a local network.
//!
//! The server keeps the most recently posted clipboard entry and serves it to
//! authenticated clients; the client polls the server and hands new entries to
//! the local clipboard or to disk; the token generator makes the shared secret.

pub mod clock;
pub mod content;
pub mod encoding;
pub mod client;
pub mod server;
pub mod text;
pub mod token_gen;
