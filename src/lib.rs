//! Client-side core of a connection to an audio playback server used by a Discord bot:
//! guild-to-shard routing, per-guild player state, voice handshake accumulation, session
//! and connection configuration, and the connection supervisor's state machine.

pub mod config;
pub mod json;
pub mod model;
pub mod player;
pub mod connection;
pub mod manager;
pub mod session;
pub mod shard;
pub mod socket;
pub mod source;
pub mod text;
pub mod wire;
