//! Core logic of a guild music-playback bot: per-guild track queues, the
//! playback-session lifecycle, idle/auto-disconnect monitoring, lifecycle
//! event dispatch, and the external WebSocket control boundary.

pub mod announce;
pub mod bridge;
pub mod commands;
pub mod config;
pub mod errors;
pub mod events;
pub mod filters;
pub mod models;
pub mod monitor;
pub mod permissions;
pub mod play;
pub mod queue;
pub mod session;
pub mod strutil;
pub mod wire;
