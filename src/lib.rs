//! Plain-value core of a bridge that relays a Spotify Connect stream into a
//! voice call: stereo frame encoding, the input accumulation buffer, the
//! bounded frame queue with its read rule, the Connect session's lifecycle,
//! and the decisions that map playback and presence events to actions.
pub mod bridge;
pub mod buffer;
pub mod config;
pub mod frame;
pub mod keys;
pub mod presence;
pub mod queue;
pub mod session;
