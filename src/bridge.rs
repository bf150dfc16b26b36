//! The event bridge: each playback event maps to exactly one outside action.
//!
//! Events are taken one at a time, in the order the playback engine emitted
//! them, by a single loop outside the library; this is the table that loop
//! consults.
use vstd::prelude::*;

verus! {

/// The largest volume level the playback engine reports; a level is applied
/// as the ratio `level / VOLUME_MAX`.
pub const VOLUME_MAX: u16 = 65535;

/// Milliseconds the event loop waits before polling again when the event
/// channel has nothing for it.
pub const EVENT_POLL_DELAY_MS: u64 = 256;

/// A playback lifecycle event, as far as the bridge is concerned.
#[derive(Clone, Copy, Debug, PartialEq, Eq, Structural)]
pub enum PlaybackEvent {
    Started,
    Stopped,
    Paused,
    /// A track is playing; `track_id` is its 128-bit Spotify id.
    Playing { track_id: u128 },
    /// The mixer volume was set to `volume` out of `VOLUME_MAX`.
    VolumeSet { volume: u16 },
}

/// What the bridge asks of the call transport and the presence display.
#[derive(Clone, Copy, Debug, PartialEq, Eq, Structural)]
pub enum BridgeAction {
    /// Join the user's current call and stream from the frame source.
    JoinAndStream,
    /// Leave the call.
    Leave,
    /// Show an idle presence.
    ShowIdle,
    /// Look up the track's title and artist and show them as the presence.
    ShowTrack { track_id: u128 },
    /// Scale the call's output volume to `level / VOLUME_MAX`.
    ScaleVolume { level: u16 },
}

/// The action each event maps to.
pub open spec fn spec_action_for(event: PlaybackEvent) -> BridgeAction {
    match event {
        PlaybackEvent::Started => BridgeAction::JoinAndStream,
        PlaybackEvent::Stopped => BridgeAction::Leave,
        PlaybackEvent::Paused => BridgeAction::ShowIdle,
        PlaybackEvent::Playing { track_id } => BridgeAction::ShowTrack { track_id },
        PlaybackEvent::VolumeSet { volume } => BridgeAction::ScaleVolume { level: volume },
    }
}

/// The action for one event.
pub fn action_for(event: &PlaybackEvent) -> (r: BridgeAction)
    ensures
        r == spec_action_for(*event),
{
    match event {
        PlaybackEvent::Started => BridgeAction::JoinAndStream,
        PlaybackEvent::Stopped => BridgeAction::Leave,
        PlaybackEvent::Paused => BridgeAction::ShowIdle,
        PlaybackEvent::Playing { track_id } => BridgeAction::ShowTrack { track_id: *track_id },
        PlaybackEvent::VolumeSet { volume } => BridgeAction::ScaleVolume { level: *volume },
    }
}

} // verus!
