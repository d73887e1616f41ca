use pleyx::discord::format_duration;
use pleyx::plex::{format_ms, MediaType, NowPlaying, PlayerState};

fn record(title: &str, media_type: MediaType, state: PlayerState) -> NowPlaying {
    NowPlaying {
        title: title.to_string(),
        media_type,
        year: None,
        grandparent_title: None,
        parent_title: None,
        season_number: None,
        episode_number: None,
        thumb_url: None,
        duration_ms: None,
        view_offset_ms: None,
        player_state: state,
    }
}

#[test]
fn duration_zero() {
    assert_eq!(format_ms(0), "0:00");
    assert_eq!(format_duration(0), "0:00");
}

#[test]
fn duration_with_hours() {
    assert_eq!(format_ms(3_725_000), "1:02:05");
    assert_eq!(format_duration(3_725_000), "1:02:05");
}

#[test]
fn duration_hour_boundary() {
    assert_eq!(format_ms(3_599_999), "59:59");
    assert_eq!(format_ms(3_600_000), "1:00:00");
}

#[test]
fn duration_short() {
    assert_eq!(format_ms(61_000), "1:01");
    assert_eq!(format_ms(999), "0:00");
    assert_eq!(format_ms(59_999), "0:59");
}

#[test]
fn duration_large() {
    assert_eq!(format_ms(36_061_000), "10:01:01");
}

#[test]
fn duration_negative_renders_zero() {
    assert_eq!(format_ms(-5_000), "0:00");
    assert_eq!(format_duration(-1), "0:00");
}

#[test]
fn display_title_episode_with_show() {
    let mut np = record("Pilot", MediaType::Episode, PlayerState::Playing);
    np.grandparent_title = Some("Show".to_string());
    assert_eq!(np.display_title(), "Show - Pilot");
}

#[test]
fn display_title_episode_without_show() {
    let np = record("Pilot", MediaType::Episode, PlayerState::Playing);
    assert_eq!(np.display_title(), "Pilot");
}

#[test]
fn display_title_track_with_artist() {
    let mut np = record("Song", MediaType::Track, PlayerState::Playing);
    np.grandparent_title = Some("Artist".to_string());
    assert_eq!(np.display_title(), "Artist - Song");
}

#[test]
fn display_title_movie_with_year() {
    let mut np = record("Dune", MediaType::Movie, PlayerState::Playing);
    np.year = Some(2021);
    assert_eq!(np.display_title(), "Dune (2021)");
}

#[test]
fn display_title_movie_without_year() {
    let np = record("Dune", MediaType::Movie, PlayerState::Playing);
    assert_eq!(np.display_title(), "Dune");
}

#[test]
fn state_text_names() {
    assert_eq!(record("x", MediaType::Movie, PlayerState::Playing).state_text(), "Playing");
    assert_eq!(record("x", MediaType::Movie, PlayerState::Paused).state_text(), "Paused");
    assert_eq!(record("x", MediaType::Movie, PlayerState::Buffering).state_text(), "Buffering");
}

#[test]
fn progress_text_both_present() {
    let mut np = record("x", MediaType::Movie, PlayerState::Playing);
    np.view_offset_ms = Some(61_000);
    np.duration_ms = Some(3_725_000);
    assert_eq!(np.progress_text(), Some("1:01 / 1:02:05".to_string()));
}

#[test]
fn progress_text_one_side_missing() {
    let mut np = record("x", MediaType::Movie, PlayerState::Playing);
    np.duration_ms = Some(3_725_000);
    assert_eq!(np.progress_text(), None);
    np.duration_ms = None;
    np.view_offset_ms = Some(1000);
    assert_eq!(np.progress_text(), None);
}

#[test]
fn state_line_episode_full() {
    let mut np = record("Pilot", MediaType::Episode, PlayerState::Playing);
    np.season_number = Some(1);
    np.episode_number = Some(5);
    np.view_offset_ms = Some(61_000);
    np.duration_ms = Some(3_725_000);
    assert_eq!(np.state_line(), "S01E05 | 1:01 / 1:02:05");
}

#[test]
fn state_line_episode_tag_only() {
    let mut np = record("Pilot", MediaType::Episode, PlayerState::Playing);
    np.season_number = Some(12);
    np.episode_number = None;
    assert_eq!(np.state_line(), "S12");
    np.season_number = None;
    np.episode_number = Some(7);
    assert_eq!(np.state_line(), "E07");
}

#[test]
fn state_line_episode_wide_numbers() {
    let mut np = record("Pilot", MediaType::Episode, PlayerState::Playing);
    np.season_number = Some(123);
    np.episode_number = Some(4);
    assert_eq!(np.state_line(), "S123E04");
}

#[test]
fn state_line_episode_neither() {
    let mut np = record("Pilot", MediaType::Episode, PlayerState::Playing);
    np.view_offset_ms = Some(1_000);
    np.duration_ms = Some(2_000);
    assert_eq!(np.state_line(), "0:01 / 0:02");
}

#[test]
fn state_line_track_with_album() {
    let mut np = record("Song", MediaType::Track, PlayerState::Playing);
    np.parent_title = Some("Album".to_string());
    np.view_offset_ms = Some(1_000);
    np.duration_ms = Some(2_000);
    assert_eq!(np.state_line(), "Album | 0:01 / 0:02");
}

#[test]
fn state_line_track_album_only() {
    let mut np = record("Song", MediaType::Track, PlayerState::Playing);
    np.parent_title = Some("Album".to_string());
    assert_eq!(np.state_line(), "Album");
}

#[test]
fn state_line_movie_progress() {
    let mut np = record("Dune", MediaType::Movie, PlayerState::Playing);
    np.view_offset_ms = Some(1_000);
    np.duration_ms = Some(2_000);
    assert_eq!(np.state_line(), "0:01 / 0:02");
}

#[test]
fn state_line_movie_falls_back_to_state() {
    let np = record("Dune", MediaType::Movie, PlayerState::Paused);
    assert_eq!(np.state_line(), "Paused");
    let np2 = record("Dune", MediaType::Unknown, PlayerState::Buffering);
    assert_eq!(np2.state_line(), "Buffering");
}
