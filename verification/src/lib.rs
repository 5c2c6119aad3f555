//! The core of a small authoritative multiplayer simulation.
//!
//! The server side keeps one row per connected identity, takes movement
//! commands, and advances every player once per tick. The client side routes
//! replicated rows to local or remote entities and turns key states into
//! commands. Transport, rendering and storage of credentials are the
//! caller's business: every function here works on plain values.

pub mod client;
pub mod command;
pub mod error;
pub mod player;
pub mod schedule;
pub mod server;
pub mod table;
pub mod vector;
