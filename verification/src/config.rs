//! The values that a deployment chooses.

use vstd::prelude::*;

verus! {

/// What the chat core is configured with.
#[derive(Clone, Debug, PartialEq, Eq)]
pub struct ChatConfig {
    /// The room a session is in when it connects and after it leaves a room.
    pub default_room: String,
    /// Milliseconds between two liveness checks of a session.
    pub heartbeat_interval_ms: u64,
    /// Milliseconds of silence after which a session is given up.
    pub heartbeat_timeout_ms: u64,
    /// The longest inbound frame that is decoded, in bytes.
    pub max_frame_bytes: usize,
}

impl ChatConfig {
    /// A configuration for ordinary use: the room `main`, a check every
    /// five seconds, a timeout of twice that, and frames of up to 64 KiB.
    pub fn recommended() -> (config: Self)
        ensures
            config.default_room@ == "main"@,
            config.heartbeat_interval_ms == 5_000,
            config.heartbeat_timeout_ms == 10_000,
            config.max_frame_bytes == 65_536,
    {
        ChatConfig {
            default_room: "main".to_owned(),
            heartbeat_interval_ms: 5_000,
            heartbeat_timeout_ms: 10_000,
            max_frame_bytes: 65_536,
        }
    }
}

} // verus!
