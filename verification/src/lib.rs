//! Decision logic of a small file-sharing and real-time messaging server.
//!
//! The crate holds what the server decides and computes: how a WebSocket
//! session reacts to each event, what is published to the broadcast hub and
//! how the outcome is reported, which commands the clipboard sends to its
//! key-value store, and how uploaded files are named, listed and paged.
//! Sockets, files and the HTTP framework stay with the caller.

pub mod api;
pub mod db;
pub mod files;
pub mod text;
pub mod ws;
