//! Keys under which the chat client's shared data map holds the bridge's
//! player and settings.
use vstd::prelude::*;

verus! {

/// Key of the shared Connect player.
#[derive(Clone, Copy, Debug, PartialEq, Eq, Structural)]
pub struct SpotifyPlayerKey;

/// Key of the bridge's settings.
#[derive(Clone, Copy, Debug, PartialEq, Eq, Structural)]
pub struct ConfigKey;

} // verus!
