//! The Connect session's lifecycle.
//!
//! `Uninitialized -> Authenticating -> Idle <-> Casting`. Authentication
//! happens once, at startup. While `Casting`, one Connect control task and one
//! playback engine are live; enabling again replaces them, disabling shuts the
//! task down and closes the event channel.
//!
//! The library decides; the caller performs what each step names (runs the
//! discovery flow, connects, spawns or shuts down the control task).
use vstd::prelude::*;

use crate::config::Config;

verus! {

/// Where the Connect session stands.
#[derive(Clone, Copy, Debug, PartialEq, Eq, Structural)]
pub enum SessionPhase {
    Uninitialized,
    Authenticating,
    /// Session ready, casting off.
    Idle,
    /// Session ready, a control task and a playback engine live.
    Casting,
}

/// How to obtain credentials at startup.
#[derive(Debug, PartialEq, Eq)]
pub enum AuthPlan {
    /// No stored blob: advertise `device_name` on the local network under
    /// the fresh `device_id`, wait for a client to hand over credentials,
    /// store their blob, then connect with them.
    Discover { device_id: String, device_name: String },
    /// Connect straight away with the stored blob.
    StoredBlob { username: String, blob: Vec<u8>, device_id: String },
}

/// A step asked of the session in a phase where it does not apply.
#[derive(Clone, Copy, Debug, PartialEq, Eq, Structural)]
pub enum SessionError {
    /// Authentication was already begun.
    AlreadyStarted,
    /// The step belongs to authentication, which is not under way.
    NotAuthenticating,
    /// The session is not authenticated yet.
    NotReady,
}

/// What enabling asks the caller to do.
#[derive(Clone, Copy, Debug, PartialEq, Eq, Structural)]
pub enum EnableStep {
    /// Build a playback engine on a fresh frame sink, spawn a control task,
    /// and use the engine's event channel.
    Start,
    /// As `Start`, and let the previous control task and engine go: they are
    /// superseded and dropped once unreferenced.
    Replace,
}

/// What disabling asks the caller to do.
#[derive(Clone, Copy, Debug, PartialEq, Eq, Structural)]
pub enum DisableStep {
    /// Signal the control task to shut down and close the event channel.
    Shutdown,
    /// Casting was already off: nothing to do.
    Nothing,
}

/// The session is authenticated.
pub open spec fn is_ready(p: SessionPhase) -> bool {
    p is Idle || p is Casting
}

/// Control tasks live in a phase.
pub open spec fn live_tasks(p: SessionPhase) -> nat {
    if p is Casting {
        1
    } else {
        0
    }
}

/// The phase after `enable`.
pub open spec fn phase_after_enable(p: SessionPhase) -> SessionPhase {
    if is_ready(p) {
        SessionPhase::Casting
    } else {
        p
    }
}

/// The phase after `disable`.
pub open spec fn phase_after_disable(p: SessionPhase) -> SessionPhase {
    if p is Casting {
        SessionPhase::Idle
    } else {
        p
    }
}

/// Control tasks that an enable step stops (a superseded one) and starts.
pub open spec fn tasks_stopped(s: EnableStep) -> nat {
    if s is Replace {
        1
    } else {
        0
    }
}

/// Relies on `uuid::Uuid::new_v4` and its `Display`: a random version-4
/// UUID in hyphenated lower-case form, 36 characters with dashes at 8, 13,
/// 18 and 23 and the version digit at 14.
#[verifier::external_body]
fn fresh_device_id() -> (r: String)
    ensures
        r@.len() == 36,
        r@[8] == '-',
        r@[13] == '-',
        r@[18] == '-',
        r@[23] == '-',
        r@[14] == '4',
{
    uuid::Uuid::new_v4().to_string()
}

/// The Connect session's lifecycle state.
pub struct ConnectSession {
    phase: SessionPhase,
}

impl ConnectSession {
    pub closed spec fn spec_phase(&self) -> SessionPhase {
        self.phase
    }

    /// A session not yet authenticated.
    pub fn new() -> (r: ConnectSession)
        ensures
            r.spec_phase() == SessionPhase::Uninitialized,
    {
        ConnectSession { phase: SessionPhase::Uninitialized }
    }

    pub fn phase(&self) -> (r: SessionPhase)
        ensures
            r == self.spec_phase(),
    {
        self.phase
    }

    /// Begins authentication and says how: by the stored blob when the
    /// settings hold one (under `device_id`), else by interactive discovery
    /// under a fresh device id. Authentication is begun once only.
    pub fn begin_authentication(&mut self, config: &Config, device_id: String) -> (r: Result<
        AuthPlan,
        SessionError,
    >)
        ensures
            old(self).spec_phase() is Uninitialized <==> r is Ok,
            r is Ok ==> final(self).spec_phase() == SessionPhase::Authenticating,
            r is Err ==> r == Err::<AuthPlan, SessionError>(SessionError::AlreadyStarted)
                && final(self).spec_phase() == old(self).spec_phase(),
            r is Ok && config.spotify_encrypted_blob@.len() == 0 ==> (r->Ok_0 matches AuthPlan::Discover {
                device_id: id,
                device_name,
            } && device_name@ == config.spotify_device_name@ && id@.len() == 36),
            r is Ok && config.spotify_encrypted_blob@.len() > 0 ==> (r->Ok_0 matches AuthPlan::StoredBlob {
                username,
                blob,
                device_id: id,
            } && username@ == config.spotify_username@ && blob@ == config.spotify_encrypted_blob@
                && id@ == device_id@),
    {
        if self.phase != SessionPhase::Uninitialized {
            return Err(SessionError::AlreadyStarted);
        }
        self.phase = SessionPhase::Authenticating;
        if config.spotify_encrypted_blob.len() == 0 {
            Ok(
                AuthPlan::Discover {
                    device_id: fresh_device_id(),
                    device_name: config.spotify_device_name.clone(),
                },
            )
        } else {
            Ok(
                AuthPlan::StoredBlob {
                    username: config.spotify_username.clone(),
                    blob: config.spotify_encrypted_blob.clone(),
                    device_id,
                },
            )
        }
    }

    /// Stores the blob that discovery obtained in the settings, for later
    /// startups; only while authenticating.
    pub fn store_discovered_blob(&self, config: &mut Config, blob: Vec<u8>) -> (r: Result<
        (),
        SessionError,
    >)
        ensures
            self.spec_phase() is Authenticating <==> r is Ok,
            r is Err ==> r == Err::<(), SessionError>(SessionError::NotAuthenticating),
            r is Err ==> *final(config) == *old(config),
            r is Ok ==> final(config).spotify_encrypted_blob@ == blob@,
            r is Ok ==> final(config).discord_token == old(config).discord_token,
            r is Ok ==> final(config).discord_user_id == old(config).discord_user_id,
            r is Ok ==> final(config).spotify_bot_autoplay == old(config).spotify_bot_autoplay,
            r is Ok ==> final(config).spotify_device_name == old(config).spotify_device_name,
            r is Ok ==> final(config).spotify_username == old(config).spotify_username,
    {
        if self.phase != SessionPhase::Authenticating {
            return Err(SessionError::NotAuthenticating);
        }
        config.spotify_encrypted_blob = blob;
        Ok(())
    }

    /// Records that the session connected: authentication is over.
    pub fn finish_authentication(&mut self) -> (r: Result<(), SessionError>)
        ensures
            old(self).spec_phase() is Authenticating <==> r is Ok,
            r is Ok ==> final(self).spec_phase() == SessionPhase::Idle,
            r is Err ==> r == Err::<(), SessionError>(SessionError::NotAuthenticating)
                && final(self).spec_phase() == old(self).spec_phase(),
    {
        if self.phase != SessionPhase::Authenticating {
            return Err(SessionError::NotAuthenticating);
        }
        self.phase = SessionPhase::Idle;
        Ok(())
    }

    /// Turns casting on, or renews it when it is on already.
    pub fn enable(&mut self) -> (r: Result<EnableStep, SessionError>)
        ensures
            final(self).spec_phase() == phase_after_enable(old(self).spec_phase()),
            old(self).spec_phase() is Idle ==> r == Ok::<EnableStep, SessionError>(
                EnableStep::Start,
            ),
            old(self).spec_phase() is Casting ==> r == Ok::<EnableStep, SessionError>(
                EnableStep::Replace,
            ),
            !is_ready(old(self).spec_phase()) ==> r == Err::<EnableStep, SessionError>(
                SessionError::NotReady,
            ),
            r is Ok ==> live_tasks(old(self).spec_phase()) - tasks_stopped(r->Ok_0) + 1
                == live_tasks(final(self).spec_phase()),
    {
        match self.phase {
            SessionPhase::Idle => {
                self.phase = SessionPhase::Casting;
                Ok(EnableStep::Start)
            },
            SessionPhase::Casting => Ok(EnableStep::Replace),
            _ => Err(SessionError::NotReady),
        }
    }

    /// Turns casting off; does nothing when it is off.
    pub fn disable(&mut self) -> (r: DisableStep)
        ensures
            final(self).spec_phase() == phase_after_disable(old(self).spec_phase()),
            old(self).spec_phase() is Casting <==> r == DisableStep::Shutdown,
            live_tasks(final(self).spec_phase()) == 0,
    {
        if self.phase == SessionPhase::Casting {
            self.phase = SessionPhase::Idle;
            DisableStep::Shutdown
        } else {
            DisableStep::Nothing
        }
    }
}

/// Enabling twice in a row leaves exactly one live control task, the second
/// enabling stopping the first; disabling an idle session changes nothing;
/// disabling then enabling casts again.
pub proof fn lifecycle_laws(p: SessionPhase)
    requires
        is_ready(p),
    ensures
        phase_after_enable(phase_after_enable(p)) == SessionPhase::Casting,
        live_tasks(phase_after_enable(phase_after_enable(p))) == 1,
        phase_after_enable(p) is Casting,
        phase_after_disable(SessionPhase::Idle) == SessionPhase::Idle,
        phase_after_enable(phase_after_disable(p)) == SessionPhase::Casting,
{
}

} // verus!
