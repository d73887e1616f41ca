use pleyx::plex::{
    check_status, now_playing_from_metadata, now_playing_from_sessions, FetchError, MediaType,
    PlayerState, PlexClient, RawMetadata,
};

fn raw() -> RawMetadata {
    RawMetadata {
        media_type: None,
        title: None,
        year: None,
        grandparent_title: None,
        parent_title: None,
        season_number: None,
        episode_number: None,
        duration: None,
        view_offset: None,
        player_state: None,
    }
}

#[test]
fn media_type_absent_maps_to_unknown() {
    let np = now_playing_from_metadata(&raw());
    assert_eq!(np.media_type, MediaType::Unknown);
}

#[test]
fn media_type_known_names() {
    let mut m = raw();
    m.media_type = Some("movie".to_string());
    assert_eq!(now_playing_from_metadata(&m).media_type, MediaType::Movie);
    m.media_type = Some("episode".to_string());
    assert_eq!(now_playing_from_metadata(&m).media_type, MediaType::Episode);
    m.media_type = Some("track".to_string());
    assert_eq!(now_playing_from_metadata(&m).media_type, MediaType::Track);
    m.media_type = Some("clip".to_string());
    assert_eq!(now_playing_from_metadata(&m).media_type, MediaType::Unknown);
}

#[test]
fn player_state_unmodeled_value_fails_open_to_playing() {
    let mut m = raw();
    m.player_state = Some("stopped".to_string());
    assert_eq!(now_playing_from_metadata(&m).player_state, PlayerState::Playing);
}

#[test]
fn player_state_known_names() {
    let mut m = raw();
    m.player_state = Some("playing".to_string());
    assert_eq!(now_playing_from_metadata(&m).player_state, PlayerState::Playing);
    m.player_state = Some("paused".to_string());
    assert_eq!(now_playing_from_metadata(&m).player_state, PlayerState::Paused);
    m.player_state = Some("buffering".to_string());
    assert_eq!(now_playing_from_metadata(&m).player_state, PlayerState::Buffering);
    m.player_state = None;
    assert_eq!(now_playing_from_metadata(&m).player_state, PlayerState::Playing);
}

#[test]
fn missing_title_becomes_unknown() {
    assert_eq!(now_playing_from_metadata(&raw()).title, "Unknown");
}

#[test]
fn fields_pass_through() {
    let mut m = raw();
    m.title = Some("Pilot".to_string());
    m.year = Some(1999);
    m.grandparent_title = Some("Show".to_string());
    m.parent_title = Some("Season 1".to_string());
    m.season_number = Some(1);
    m.episode_number = Some(5);
    m.duration = Some(3_725_000);
    m.view_offset = Some(61_000);
    let np = now_playing_from_metadata(&m);
    assert_eq!(np.title, "Pilot");
    assert_eq!(np.year, Some(1999));
    assert_eq!(np.grandparent_title, Some("Show".to_string()));
    assert_eq!(np.parent_title, Some("Season 1".to_string()));
    assert_eq!(np.season_number, Some(1));
    assert_eq!(np.episode_number, Some(5));
    assert_eq!(np.duration_ms, Some(3_725_000));
    assert_eq!(np.view_offset_ms, Some(61_000));
    assert_eq!(np.thumb_url, None);
}

#[test]
fn one_sided_progress_passes_through() {
    let mut m = raw();
    m.duration = Some(3_725_000);
    let np = now_playing_from_metadata(&m);
    assert_eq!(np.duration_ms, Some(3_725_000));
    assert_eq!(np.view_offset_ms, None);
}

#[test]
fn empty_session_list_means_nothing_playing() {
    assert!(now_playing_from_sessions(&Vec::new()).is_none());
}

#[test]
fn first_session_wins() {
    let mut first = raw();
    first.title = Some("First".to_string());
    let mut second = raw();
    second.title = Some("Second".to_string());
    let np = now_playing_from_sessions(&vec![first, second]).unwrap();
    assert_eq!(np.title, "First");
}

#[test]
fn status_success_range() {
    assert!(check_status(200).is_ok());
    assert!(check_status(204).is_ok());
    assert!(check_status(299).is_ok());
}

#[test]
fn status_rejections_carry_the_code() {
    assert_eq!(check_status(199), Err(FetchError::ServerRejected(199)));
    assert_eq!(check_status(300), Err(FetchError::ServerRejected(300)));
    assert_eq!(check_status(401), Err(FetchError::ServerRejected(401)));
    assert_eq!(check_status(500), Err(FetchError::ServerRejected(500)));
}

#[test]
fn client_trims_trailing_slashes() {
    let c = PlexClient::new("http://localhost:32400//", "tok");
    assert_eq!(c.sessions_url(), "http://localhost:32400/status/sessions");
    assert_eq!(c.root_url(), "http://localhost:32400/");
    assert_eq!(c.token(), "tok");
}

#[test]
fn client_without_trailing_slash() {
    let c = PlexClient::new("http://h:1", "t");
    assert_eq!(c.sessions_url(), "http://h:1/status/sessions");
}
