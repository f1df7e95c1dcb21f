//! A playback-intent dispatcher for a media player: it decides whether a URL is
//! handed to a running player over its control socket or to a new player
//! process, and mediates between the player and a media resolver.

pub mod config;
pub mod control;
pub mod error;
pub mod intent;
pub mod laws;
pub mod play;
pub mod resolver;
pub mod supervisor;
pub mod text;
