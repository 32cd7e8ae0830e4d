//! Rich-presence session for a music player.
//!
//! The crate keeps a single connection to the Discord client that runs on the
//! same machine and relays what the player is doing to it. The state machine
//! that governs the connection, the payload that an update sends and the
//! wording of every failure are verified; the calls into the IPC client
//! library and the system clock are the only trusted parts.

pub mod activity;
pub mod clock;
pub mod discord;
pub mod failure;
pub mod ipc;
