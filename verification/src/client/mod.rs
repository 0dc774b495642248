//! The clipboard client: configuration, the exchange with the server, the
//! hand-over of entries to the clipboard or to disk, and the polling daemon.

pub mod api;
pub mod clipboard_ops;
pub mod config;
pub mod daemon;
pub mod models;
