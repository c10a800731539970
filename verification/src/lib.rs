//! Session management core for a terminal multiplexer: session records,
//! the registry of live sessions, the spawn plan, the output streamer,
//! group bookkeeping and the persisted layout.

pub mod commands;
pub mod error;
pub mod host;
pub mod manager;
pub mod persistence;
pub mod pty;
pub mod session;
pub mod spawner;
pub mod streamer;
