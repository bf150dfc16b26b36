use aoede::config::{default_spotify_device_name, Config};
use aoede::session::{
    AuthPlan, ConnectSession, DisableStep, EnableStep, SessionError, SessionPhase,
};

fn config_with_blob(blob: Vec<u8>) -> Config {
    Config {
        discord_token: "token".to_string(),
        discord_user_id: 42,
        spotify_bot_autoplay: false,
        spotify_device_name: "Kitchen".to_string(),
        spotify_username: "listener".to_string(),
        spotify_encrypted_blob: blob,
    }
}

fn ready_session() -> ConnectSession {
    let mut s = ConnectSession::new();
    s.begin_authentication(&config_with_blob(vec![1]), "dev".to_string()).unwrap();
    s.finish_authentication().unwrap();
    s
}

#[test]
fn default_device_name() {
    assert_eq!(default_spotify_device_name(), "Aoede");
}

#[test]
fn empty_blob_goes_through_discovery_and_persists_the_blob() {
    let mut config = config_with_blob(Vec::new());
    let mut s = ConnectSession::new();
    assert_eq!(s.phase(), SessionPhase::Uninitialized);
    let plan = s.begin_authentication(&config, "fixed-id".to_string()).unwrap();
    assert_eq!(s.phase(), SessionPhase::Authenticating);
    match plan {
        AuthPlan::Discover { device_id, device_name } => {
            assert_eq!(device_name, "Kitchen");
            assert_eq!(device_id.len(), 36);
            assert_ne!(device_id, "fixed-id");
            assert_eq!(&device_id[14..15], "4");
            for dash in [8, 13, 18, 23] {
                assert_eq!(&device_id[dash..dash + 1], "-");
            }
        }
        other => panic!("expected discovery, got {:?}", other),
    }
    s.store_discovered_blob(&mut config, vec![9, 8, 7]).unwrap();
    assert_eq!(config.spotify_encrypted_blob, vec![9, 8, 7]);
    assert_eq!(config.spotify_username, "listener");
    s.finish_authentication().unwrap();
    assert_eq!(s.phase(), SessionPhase::Idle);
}

#[test]
fn stored_blob_skips_discovery() {
    let config = config_with_blob(vec![5, 6]);
    let mut s = ConnectSession::new();
    let plan = s.begin_authentication(&config, "dev-1".to_string()).unwrap();
    assert_eq!(
        plan,
        AuthPlan::StoredBlob {
            username: "listener".to_string(),
            blob: vec![5, 6],
            device_id: "dev-1".to_string(),
        }
    );
    s.finish_authentication().unwrap();
    assert_eq!(s.phase(), SessionPhase::Idle);
}

#[test]
fn authentication_happens_once() {
    let config = config_with_blob(vec![1]);
    let mut s = ConnectSession::new();
    s.begin_authentication(&config, "d".to_string()).unwrap();
    assert_eq!(
        s.begin_authentication(&config, "d".to_string()),
        Err(SessionError::AlreadyStarted)
    );
    s.finish_authentication().unwrap();
    assert_eq!(s.finish_authentication(), Err(SessionError::NotAuthenticating));
    let mut other = config.clone();
    assert_eq!(s.store_discovered_blob(&mut other, vec![3]), Err(SessionError::NotAuthenticating));
    assert_eq!(other.spotify_encrypted_blob, vec![1]);
}

#[test]
fn enable_before_authentication_is_refused() {
    let mut s = ConnectSession::new();
    assert_eq!(s.enable(), Err(SessionError::NotReady));
    assert_eq!(s.disable(), DisableStep::Nothing);
    assert_eq!(s.phase(), SessionPhase::Uninitialized);
}

#[test]
fn enabling_twice_replaces_the_control_task() {
    let mut s = ready_session();
    assert_eq!(s.enable(), Ok(EnableStep::Start));
    assert_eq!(s.enable(), Ok(EnableStep::Replace));
    assert_eq!(s.phase(), SessionPhase::Casting);
}

#[test]
fn disabling_when_idle_does_nothing() {
    let mut s = ready_session();
    assert_eq!(s.disable(), DisableStep::Nothing);
    assert_eq!(s.phase(), SessionPhase::Idle);
}

#[test]
fn disable_then_enable_casts_again() {
    let mut s = ready_session();
    assert_eq!(s.enable(), Ok(EnableStep::Start));
    assert_eq!(s.disable(), DisableStep::Shutdown);
    assert_eq!(s.phase(), SessionPhase::Idle);
    assert_eq!(s.enable(), Ok(EnableStep::Start));
    assert_eq!(s.phase(), SessionPhase::Casting);
}
