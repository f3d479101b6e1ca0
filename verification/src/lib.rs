//! Monitoring and decision engine for a live game server.
//!
//! The engine polls a third-party status API, republishes the server's
//! state as a presence indicator on a chat platform, and notifies a
//! channel when player-count trends cross configured thresholds. The
//! decision logic — the rolling-window trend detector, the fail-safe
//! poll cycle, and the rate-limited profile updater — is verified;
//! network and platform calls stay at the edges.

pub mod compose;
pub mod cycle;
pub mod message;
pub mod profile;
pub mod server_info;
pub mod text;
