//! The playback model: the normalized record of what the media server is
//! playing, the mapping from a raw session onto it, and its rendering
//! helpers.  The HTTP exchange itself stays outside the crate; callers
//! hand in the decoded session fields as plain values.
use crate::text;
use vstd::prelude::*;
use vstd::string::{StrSliceExecFns, StringExecFns};

verus! {

#[derive(Debug, Clone, PartialEq, Eq, Structural)]
pub enum MediaType {
    Movie,
    Episode,
    Track,
    Unknown,
}

#[derive(Debug, Clone, PartialEq, Eq, Structural)]
pub enum PlayerState {
    Playing,
    Paused,
    Buffering,
}

/// Why a poll of the session endpoint failed.
#[derive(Debug, Clone, PartialEq, Eq, Structural)]
pub enum FetchError {
    /// The request never completed: connection, timeout, or I/O trouble.
    Transport,
    /// The response body was not the expected session document.
    Decode,
    /// The server answered with a status outside the success range.
    ServerRejected(u16),
}

/// The normalized record of one playing session.
#[derive(Debug, Clone)]
pub struct NowPlaying {
    pub title: String,
    pub media_type: MediaType,
    pub year: Option<i32>,
    /// Show name for episodes, artist for tracks.
    pub grandparent_title: Option<String>,
    /// Season label for episodes, album for tracks.
    pub parent_title: Option<String>,
    pub season_number: Option<i32>,
    pub episode_number: Option<i32>,
    /// An artwork reference; the presence transport may not render it.
    pub thumb_url: Option<String>,
    pub duration_ms: Option<i64>,
    pub view_offset_ms: Option<i64>,
    pub player_state: PlayerState,
}

/// One session as the server reports it, already decoded into plain
/// values: every field optional, exactly as the wire document has them.
#[derive(Debug, Clone)]
pub struct RawMetadata {
    pub media_type: Option<String>,
    pub title: Option<String>,
    pub year: Option<i32>,
    pub grandparent_title: Option<String>,
    pub parent_title: Option<String>,
    pub season_number: Option<i32>,
    pub episode_number: Option<i32>,
    pub duration: Option<i64>,
    pub view_offset: Option<i64>,
    /// The player's reported state, if the document carried a player at all.
    pub player_state: Option<String>,
}

/// The media kind a raw `type` field maps to: the three known names map
/// to their kinds, anything else (absence included) to `Unknown`.
pub open spec fn media_type_of(t: Option<Seq<char>>) -> MediaType {
    if t == Some("movie"@) {
        MediaType::Movie
    } else if t == Some("episode"@) {
        MediaType::Episode
    } else if t == Some("track"@) {
        MediaType::Track
    } else {
        MediaType::Unknown
    }
}

/// The player state a raw `state` field maps to.  Unrecognized or absent
/// values fall open to `Playing`, deliberately.
pub open spec fn player_state_of(s: Option<Seq<char>>) -> PlayerState {
    if s == Some("paused"@) {
        PlayerState::Paused
    } else if s == Some("buffering"@) {
        PlayerState::Buffering
    } else {
        PlayerState::Playing
    }
}

pub open spec fn opt_text(o: Option<String>) -> Option<Seq<char>> {
    match o {
        Some(s) => Some(s@),
        None => None,
    }
}

/// How a normalized record relates to the raw session it was built from.
pub open spec fn mapped_now_playing(m: RawMetadata, np: NowPlaying) -> bool {
    &&& np.title@ == match m.title {
        Some(t) => t@,
        None => "Unknown"@,
    }
    &&& np.media_type == media_type_of(opt_text(m.media_type))
    &&& np.year == m.year
    &&& np.grandparent_title == m.grandparent_title
    &&& np.parent_title == m.parent_title
    &&& np.season_number == m.season_number
    &&& np.episode_number == m.episode_number
    &&& np.thumb_url is None
    &&& np.duration_ms == m.duration
    &&& np.view_offset_ms == m.view_offset
    &&& np.player_state == player_state_of(opt_text(m.player_state))
}

fn clone_opt_string(o: &Option<String>) -> (r: Option<String>)
    ensures
        r == *o,
{
    match o {
        Some(s) => Some(s.clone()),
        None => None,
    }
}

/// Normalizes one raw session into a playback record, by the mapping
/// rules above; numeric fields pass through as they came.
pub fn now_playing_from_metadata(m: &RawMetadata) -> (np: NowPlaying)
    ensures
        mapped_now_playing(*m, np),
{
    let media_type = match &m.media_type {
        Some(t) => {
            if text::str_eq(t.as_str(), "movie") {
                MediaType::Movie
            } else if text::str_eq(t.as_str(), "episode") {
                MediaType::Episode
            } else if text::str_eq(t.as_str(), "track") {
                MediaType::Track
            } else {
                MediaType::Unknown
            }
        },
        None => MediaType::Unknown,
    };
    let player_state = match &m.player_state {
        Some(s) => {
            if text::str_eq(s.as_str(), "paused") {
                PlayerState::Paused
            } else if text::str_eq(s.as_str(), "buffering") {
                PlayerState::Buffering
            } else {
                PlayerState::Playing
            }
        },
        None => PlayerState::Playing,
    };
    let title = match &m.title {
        Some(t) => t.clone(),
        None => "Unknown".to_owned(),
    };
    NowPlaying {
        title,
        media_type,
        year: m.year,
        grandparent_title: clone_opt_string(&m.grandparent_title),
        parent_title: clone_opt_string(&m.parent_title),
        season_number: m.season_number,
        episode_number: m.episode_number,
        // The presence transport renders pre-registered assets only.
        thumb_url: None,
        duration_ms: m.duration,
        view_offset_ms: m.view_offset,
        player_state,
    }
}

/// Picks the playback record out of a session list: exactly the first
/// session counts, and an empty list means nothing is playing.
pub fn now_playing_from_sessions(sessions: &Vec<RawMetadata>) -> (r: Option<NowPlaying>)
    ensures
        sessions@.len() == 0 <==> r is None,
        r matches Some(np) ==> mapped_now_playing(sessions@[0], np),
{
    if sessions.len() == 0 {
        None
    } else {
        Some(now_playing_from_metadata(&sessions[0]))
    }
}

/// Classifies an HTTP status: a code in the success range is fine,
/// everything else is the server rejecting the request.
pub fn check_status(code: u16) -> (r: Result<(), FetchError>)
    ensures
        r is Ok <==> 200 <= code <= 299,
        !(200 <= code <= 299) ==> r == Err::<(), FetchError>(FetchError::ServerRejected(code)),
{
    if 200 <= code && code <= 299 {
        Ok(())
    } else {
        Err(FetchError::ServerRejected(code))
    }
}

/// A server address with any trailing slashes shed.
pub open spec fn trim_trailing_slashes(s: Seq<char>) -> Seq<char>
    decreases s.len(),
{
    if s.len() > 0 && s.last() == '/' {
        trim_trailing_slashes(s.drop_last())
    } else {
        s
    }
}

/// The media server's address and credential, normalized once at
/// construction.  The HTTP client that speaks to it lives outside the
/// crate and reads the request targets from here.
#[derive(Debug, Clone)]
pub struct PlexClient {
    server_url: String,
    token: String,
}

impl PlexClient {
    pub closed spec fn spec_server_url(&self) -> Seq<char> {
        self.server_url@
    }

    pub closed spec fn spec_token(&self) -> Seq<char> {
        self.token@
    }

    pub fn new(server_url: &str, token: &str) -> (r: PlexClient)
        ensures
            r.spec_server_url() == trim_trailing_slashes(server_url@),
            r.spec_token() == token@,
    {
        let mut end: usize = server_url.unicode_len();
        proof {
            assert(server_url@.subrange(0, end as int) =~= server_url@);
        }
        while end > 0 && server_url.get_char(end - 1) == '/'
            invariant
                end <= server_url@.len(),
                trim_trailing_slashes(server_url@.subrange(0, end as int)) == trim_trailing_slashes(
                    server_url@,
                ),
            decreases end,
        {
            proof {
                assert(server_url@.subrange(0, end as int).drop_last() =~= server_url@.subrange(
                    0,
                    end - 1,
                ));
            }
            end = end - 1;
        }
        let trimmed = server_url.substring_char(0, end);
        PlexClient { server_url: trimmed.to_owned(), token: token.to_owned() }
    }

    /// The request target for the now-playing poll.
    pub fn sessions_url(&self) -> (r: String)
        ensures
            r@ == self.spec_server_url() + "/status/sessions"@,
    {
        let mut s = self.server_url.clone();
        s.append("/status/sessions");
        s
    }

    /// The request target for the startup reachability probe.
    pub fn root_url(&self) -> (r: String)
        ensures
            r@ == self.spec_server_url() + "/"@,
    {
        let mut s = self.server_url.clone();
        s.append("/");
        s
    }

    /// The credential every request carries.
    pub fn token(&self) -> (r: &str)
        ensures
            r@ == self.spec_token(),
    {
        self.token.as_str()
    }
}

/// The display name of a player state.
pub open spec fn state_name(s: PlayerState) -> Seq<char> {
    match s {
        PlayerState::Playing => "Playing"@,
        PlayerState::Paused => "Paused"@,
        PlayerState::Buffering => "Buffering"@,
    }
}

/// The headline for a record: `show - title` for episodes and tracks
/// when the prefix is known, else the bare title; movies and unknown
/// kinds append the year in parentheses when it is known.
pub open spec fn display_title_text(np: NowPlaying) -> Seq<char> {
    match np.media_type {
        MediaType::Episode => match np.grandparent_title {
            Some(g) => g@ + " - "@ + np.title@,
            None => np.title@,
        },
        MediaType::Track => match np.grandparent_title {
            Some(g) => g@ + " - "@ + np.title@,
            None => np.title@,
        },
        _ => match np.year {
            Some(y) => np.title@ + " ("@ + text::int_str(y as int) + ")"@,
            None => np.title@,
        },
    }
}

/// `elapsed / total` when both sides are known, else empty.
pub open spec fn progress_or_empty(np: NowPlaying) -> Seq<char> {
    match (np.view_offset_ms, np.duration_ms) {
        (Some(o), Some(d)) => text::progress_pair_text(o as int, d as int),
        _ => Seq::<char>::empty(),
    }
}

/// The `S01E05`-style tag built from whichever numbers are present.
pub open spec fn episode_tag_text(season: Option<i32>, episode: Option<i32>) -> Seq<char> {
    match (season, episode) {
        (Some(s), Some(e)) => "S"@ + text::pad2(s as int) + "E"@ + text::pad2(e as int),
        (Some(s), None) => "S"@ + text::pad2(s as int),
        (None, Some(e)) => "E"@ + text::pad2(e as int),
        (None, None) => Seq::<char>::empty(),
    }
}

/// Two line parts joined by ` | ` when both are non-empty; one part
/// alone stands by itself, and two empty parts give the empty line.
pub open spec fn joined(a: Seq<char>, b: Seq<char>) -> Seq<char> {
    if b.len() > 0 && a.len() > 0 {
        a + " | "@ + b
    } else if a.len() > 0 {
        a
    } else {
        b
    }
}

/// The second presence line: kind-specific decoration joined with the
/// progress text, falling back to the state name for movies and unknown
/// kinds with no progress.
pub open spec fn state_line_text(np: NowPlaying) -> Seq<char> {
    match np.media_type {
        MediaType::Episode => joined(
            episode_tag_text(np.season_number, np.episode_number),
            progress_or_empty(np),
        ),
        MediaType::Track => joined(
            match np.parent_title {
                Some(p) => p@,
                None => Seq::<char>::empty(),
            },
            progress_or_empty(np),
        ),
        _ => if progress_or_empty(np).len() > 0 {
            progress_or_empty(np)
        } else {
            state_name(np.player_state)
        },
    }
}

/// Milliseconds as `M:SS`, or `H:MM:SS` once an hour is reached; a
/// negative count renders as zero.
pub fn format_ms(ms: i64) -> (r: String)
    ensures
        r@ == text::duration_text(text::clamp_ms(ms as int)),
{
    let nn: u64 = if ms < 0 {
        0
    } else {
        ms as u64
    };
    text::duration_string(nn)
}

fn join_parts(a: String, b: String) -> (r: String)
    ensures
        r@ == joined(a@, b@),
{
    if !b.as_str().is_empty() && !a.as_str().is_empty() {
        let mut s = a;
        s.append(" | ");
        s.append(b.as_str());
        s
    } else if !a.as_str().is_empty() {
        a
    } else {
        b
    }
}

pub(crate) fn progress_string(np: &NowPlaying) -> (r: String)
    ensures
        r@ == progress_or_empty(*np),
{
    match (np.view_offset_ms, np.duration_ms) {
        (Some(o), Some(d)) => {
            let mut s = format_ms(o);
            s.append(" / ");
            s.append(format_ms(d).as_str());
            s
        },
        _ => String::new(),
    }
}

impl NowPlaying {
    /// The headline shown for this record.
    pub fn display_title(&self) -> (r: String)
        ensures
            r@ == display_title_text(*self),
    {
        match self.media_type {
            MediaType::Episode => match &self.grandparent_title {
                Some(show) => {
                    let mut s = show.clone();
                    s.append(" - ");
                    s.append(self.title.as_str());
                    s
                },
                None => self.title.clone(),
            },
            MediaType::Track => match &self.grandparent_title {
                Some(artist) => {
                    let mut s = artist.clone();
                    s.append(" - ");
                    s.append(self.title.as_str());
                    s
                },
                None => self.title.clone(),
            },
            _ => match self.year {
                Some(y) => {
                    let mut s = self.title.clone();
                    s.append(" (");
                    s.append(text::i64_str(y as i64).as_str());
                    s.append(")");
                    s
                },
                None => self.title.clone(),
            },
        }
    }

    /// The display name of the record's player state.
    pub fn state_text(&self) -> (r: &'static str)
        ensures
            r@ == state_name(self.player_state),
    {
        match self.player_state {
            PlayerState::Playing => "Playing",
            PlayerState::Paused => "Paused",
            PlayerState::Buffering => "Buffering",
        }
    }

    /// `elapsed / total`, present exactly when both sides are known.
    pub fn progress_text(&self) -> (r: Option<String>)
        ensures
            r is Some <==> (self.view_offset_ms is Some && self.duration_ms is Some),
            r matches Some(s) ==> s@ == progress_or_empty(*self),
    {
        match (self.view_offset_ms, self.duration_ms) {
            (Some(o), Some(d)) => {
                let mut s = format_ms(o);
                s.append(" / ");
                s.append(format_ms(d).as_str());
                Some(s)
            },
            _ => None,
        }
    }

    /// The second presence line for this record.
    pub fn state_line(&self) -> (r: String)
        ensures
            r@ == state_line_text(*self),
    {
        let progress = progress_string(self);
        match self.media_type {
            MediaType::Episode => {
                let tag: String = match (self.season_number, self.episode_number) {
                    (Some(s), Some(e)) => {
                        let mut t = "S".to_owned();
                        t.append(text::pad2_str(s as i64).as_str());
                        t.append("E");
                        t.append(text::pad2_str(e as i64).as_str());
                        t
                    },
                    (Some(s), None) => {
                        let mut t = "S".to_owned();
                        t.append(text::pad2_str(s as i64).as_str());
                        t
                    },
                    (None, Some(e)) => {
                        let mut t = "E".to_owned();
                        t.append(text::pad2_str(e as i64).as_str());
                        t
                    },
                    (None, None) => String::new(),
                };
                join_parts(tag, progress)
            },
            MediaType::Track => {
                let base: String = match &self.parent_title {
                    Some(p) => p.clone(),
                    None => String::new(),
                };
                join_parts(base, progress)
            },
            MediaType::Movie => {
                if !progress.as_str().is_empty() {
                    progress
                } else {
                    self.state_text().to_owned()
                }
            },
            MediaType::Unknown => {
                if !progress.as_str().is_empty() {
                    progress
                } else {
                    self.state_text().to_owned()
                }
            },
        }
    }
}

} // verus!
