//! Mirrors a media server's "now playing" session onto a rich-presence
//! channel.  The crate holds the verified core: the playback model and its
//! rendering, the presence-channel connection state machine with its
//! reconnect cooldown and failure backoff, the session mapping rules, and
//! the polling loop's decision step.
pub mod config;
pub mod discord;
pub mod plex;
pub mod sync;
pub mod text;
