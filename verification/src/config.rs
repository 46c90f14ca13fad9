//! Recognized configuration options and their defaults.

use vstd::prelude::*;

verus! {

/// Default pause between two liveness probes, in milliseconds.
pub const DEFAULT_HEARTBEAT_INTERVAL_MS: u64 = 5_000;

/// Default span of silence after which a client counts as gone, in milliseconds.
pub const DEFAULT_CLIENT_TIMEOUT_MS: u64 = 10_000;

/// Default limit on the size of one frame, in bytes (128 KiB).
pub const DEFAULT_MAX_FRAME_SIZE: usize = 131_072;

/// Default limit on the size of a message put together from continuation
/// frames, in bytes (2 MiB).
pub const DEFAULT_MAX_AGGREGATED_MESSAGE_SIZE: usize = 2_097_152;

/// The options of one connection.
///
/// The two sizes are enforced by the transport; they are carried here so
/// that whoever builds the transport reads them from the same place as the
/// two durations.
#[derive(Clone, Copy, Debug, PartialEq, Eq, Structural)]
pub struct Config {
    /// Pause between two liveness probes, in milliseconds.
    pub heartbeat_interval_ms: u64,
    /// Span of silence after which the client counts as gone, in milliseconds.
    pub client_timeout_ms: u64,
    /// Largest frame that the transport accepts, in bytes.
    pub max_frame_size: usize,
    /// Largest aggregated message that the transport accepts, in bytes.
    pub max_aggregated_message_size: usize,
}

impl Config {
    /// The configuration that `Config::default()` returns.
    pub open spec fn standard() -> Config {
        Config {
            heartbeat_interval_ms: DEFAULT_HEARTBEAT_INTERVAL_MS,
            client_timeout_ms: DEFAULT_CLIENT_TIMEOUT_MS,
            max_frame_size: DEFAULT_MAX_FRAME_SIZE,
            max_aggregated_message_size: DEFAULT_MAX_AGGREGATED_MESSAGE_SIZE,
        }
    }
}

impl Default for Config {
    fn default() -> (config: Config)
        ensures
            config == Config::standard(),
            config.heartbeat_interval_ms == 5_000,
            config.client_timeout_ms == 10_000,
            config.max_frame_size == 128 * 1024,
            config.max_aggregated_message_size == 2 * 1024 * 1024,
    {
        Config {
            heartbeat_interval_ms: DEFAULT_HEARTBEAT_INTERVAL_MS,
            client_timeout_ms: DEFAULT_CLIENT_TIMEOUT_MS,
            max_frame_size: DEFAULT_MAX_FRAME_SIZE,
            max_aggregated_message_size: DEFAULT_MAX_AGGREGATED_MESSAGE_SIZE,
        }
    }
}

} // verus!
