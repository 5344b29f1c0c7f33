//! A relay engine for a real-time multiplayer session, free of I/O.
//!
//! The engine keeps the registry of connected participants, runs the
//! handshake that admits them, routes the code-prefixed text commands of the
//! reliable channel and mirrors the fan-out over the unreliable one. It
//! never touches a socket: what it writes to a participant is queued on that
//! participant's channel, and the program around it moves the queues to the
//! wire.

pub mod channel;
pub mod config;
pub mod dispatch;
pub mod error;
pub mod handshake;
pub mod listing;
pub mod player;
pub mod protocol;
pub mod registry;
pub mod relay;
pub mod text;
