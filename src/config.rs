//! The settings the bridge runs with.
//!
//! Loading them (a TOML file, then the environment) is done outside the
//! library; this is the plain record that the rest of the library reads, and
//! into which the session writes the credential blob it obtains.
use vstd::prelude::*;
use vstd::string::StringExecFns;

verus! {

/// The bridge's settings.
#[derive(Clone)]
pub struct Config {
    /// Token of the chat bot account.
    pub discord_token: String,
    /// The user whose presence in voice calls the bridge follows.
    pub discord_user_id: u64,
    /// Whether the Connect endpoint keeps playing similar music after a queue ends.
    pub spotify_bot_autoplay: bool,
    /// The name the Connect endpoint is advertised under.
    pub spotify_device_name: String,
    pub spotify_username: String,
    /// The reusable credential blob; empty until one has been obtained.
    pub spotify_encrypted_blob: Vec<u8>,
}

/// The device name used when the settings give none.
pub fn default_spotify_device_name() -> (r: String)
    ensures
        r@ == "Aoede"@,
{
    String::from_str("Aoede")
}

} // verus!
