use pleyx::plex::{MediaType, NowPlaying, PlayerState};
use pleyx::sync::{identity_key, status_line, sync_step, FetchEvent, PresenceAction, SyncState};

fn record(state: PlayerState) -> NowPlaying {
    NowPlaying {
        title: "Pilot".to_string(),
        media_type: MediaType::Episode,
        year: None,
        grandparent_title: Some("Show".to_string()),
        parent_title: None,
        season_number: Some(1),
        episode_number: Some(5),
        thumb_url: None,
        duration_ms: Some(120_000),
        view_offset_ms: Some(60_000),
        player_state: state,
    }
}

#[test]
fn identity_key_combines_title_state_progress() {
    let np = record(PlayerState::Playing);
    assert_eq!(identity_key(&np), "Pilot-Playing-1:00 / 2:00");
    let mut bare = np.clone();
    bare.duration_ms = None;
    bare.view_offset_ms = None;
    bare.player_state = PlayerState::Paused;
    assert_eq!(identity_key(&bare), "Pilot-Paused-");
}

#[test]
fn status_line_with_and_without_progress() {
    let np = record(PlayerState::Playing);
    assert_eq!(status_line(&np), "Show - Pilot [1:00 / 2:00]");
    let mut bare = np.clone();
    bare.duration_ms = None;
    bare.view_offset_ms = None;
    assert_eq!(status_line(&bare), "Show - Pilot (Playing)");
}

#[test]
fn active_record_emits_status_once() {
    let mut state = SyncState::new();
    let np = record(PlayerState::Playing);

    let first = sync_step(&mut state, &FetchEvent::Active(np.clone()));
    assert_eq!(first.status, Some(Some("Show - Pilot [1:00 / 2:00]".to_string())));
    assert_eq!(first.presence, PresenceAction::Update);

    let second = sync_step(&mut state, &FetchEvent::Active(np.clone()));
    assert_eq!(second.status, None);
    assert_eq!(second.presence, PresenceAction::Update);
}

#[test]
fn progress_change_emits_again() {
    let mut state = SyncState::new();
    let np = record(PlayerState::Playing);
    sync_step(&mut state, &FetchEvent::Active(np.clone()));
    let mut moved = np.clone();
    moved.view_offset_ms = Some(61_000);
    let acts = sync_step(&mut state, &FetchEvent::Active(moved));
    assert_eq!(acts.status, Some(Some("Show - Pilot [1:01 / 2:00]".to_string())));
}

#[test]
fn paused_record_clears_presence() {
    let mut state = SyncState::new();
    let acts = sync_step(&mut state, &FetchEvent::Active(record(PlayerState::Paused)));
    assert_eq!(acts.presence, PresenceAction::Clear);
    assert_eq!(acts.status, Some(Some("Show - Pilot [1:00 / 2:00]".to_string())));
}

#[test]
fn idle_after_playback_clears_exactly_once() {
    let mut state = SyncState::new();
    sync_step(&mut state, &FetchEvent::Active(record(PlayerState::Playing)));

    let idle = sync_step(&mut state, &FetchEvent::Idle);
    assert_eq!(idle.status, Some(None));
    assert_eq!(idle.presence, PresenceAction::Clear);

    let idle_again = sync_step(&mut state, &FetchEvent::Idle);
    assert_eq!(idle_again.status, None);
    assert_eq!(idle_again.presence, PresenceAction::Keep);
}

#[test]
fn idle_from_the_start_does_nothing() {
    let mut state = SyncState::new();
    let acts = sync_step(&mut state, &FetchEvent::Idle);
    assert_eq!(acts.status, None);
    assert_eq!(acts.presence, PresenceAction::Keep);
}

#[test]
fn failed_poll_changes_nothing() {
    let mut state = SyncState::new();
    sync_step(&mut state, &FetchEvent::Active(record(PlayerState::Playing)));
    let acts = sync_step(&mut state, &FetchEvent::Failed);
    assert_eq!(acts.status, None);
    assert_eq!(acts.presence, PresenceAction::Keep);
    // The remembered key is untouched: the same record stays silent.
    let again = sync_step(&mut state, &FetchEvent::Active(record(PlayerState::Playing)));
    assert_eq!(again.status, None);
}
