//! The polling loop's decision step.  The loop around it lives outside
//! the crate: it polls the server, hands the outcome in as an event,
//! and carries the returned actions out against the presence channel
//! and the status sink.  Everything decided here — change detection,
//! what to emit, what to do with the presence — is verified.
use crate::plex::{
    display_title_text, progress_or_empty, progress_string, state_name, NowPlaying, PlayerState,
};
use vstd::prelude::*;
use vstd::string::StringExecFns;

verus! {

/// What one poll of the server produced.
#[derive(Debug)]
pub enum FetchEvent {
    /// A session is active; its normalized record.
    Active(NowPlaying),
    /// The server answered and nothing is playing.
    Idle,
    /// The poll failed; the loop logs and carries on.
    Failed,
}

/// What the loop should do with the presence channel this cycle.
#[derive(Debug, Clone, PartialEq, Eq, Structural)]
pub enum PresenceAction {
    /// Send the record's payload.
    Update,
    /// Clear whatever is displayed.
    Clear,
    /// Leave the channel alone.
    Keep,
}

/// The loop's memory between cycles: the identity key of the last
/// record it reported, if any.
#[derive(Debug, Clone)]
pub struct SyncState {
    pub last_playing: Option<String>,
}

/// The orders one step hands back to the loop.
#[derive(Debug)]
pub struct SyncActions {
    /// `Some` emits to the status sink: `Some(text)` to display
    /// playback, `None` to display the idle placeholder.
    pub status: Option<Option<String>>,
    pub presence: PresenceAction,
}

/// The key by which two cycles are judged the same: title, state name
/// and progress text, dash-joined.  Never persisted, only compared.
pub open spec fn identity_key_text(np: NowPlaying) -> Seq<char> {
    np.title@ + "-"@ + state_name(np.player_state) + "-"@ + progress_or_empty(np)
}

/// The status sink's line for a record: the headline with the progress
/// in brackets, or with the state name in parentheses when progress is
/// unknown.
pub open spec fn status_line_text(np: NowPlaying) -> Seq<char> {
    if progress_or_empty(np).len() == 0 {
        display_title_text(np) + " ("@ + state_name(np.player_state) + ")"@
    } else {
        display_title_text(np) + " ["@ + progress_or_empty(np) + "]"@
    }
}

/// Whether the loop's memory already names this record's key.
pub open spec fn same_as_last(state: SyncState, np: NowPlaying) -> bool {
    match state.last_playing {
        Some(prev) => prev@ == identity_key_text(np),
        None => false,
    }
}

pub fn identity_key(np: &NowPlaying) -> (r: String)
    ensures
        r@ == identity_key_text(*np),
{
    let mut s = np.title.clone();
    s.append("-");
    s.append(np.state_text());
    s.append("-");
    s.append(progress_string(np).as_str());
    s
}

pub fn status_line(np: &NowPlaying) -> (r: String)
    ensures
        r@ == status_line_text(*np),
{
    let progress = progress_string(np);
    let mut s = np.display_title();
    if progress.as_str().is_empty() {
        s.append(" (");
        s.append(np.state_text());
        s.append(")");
    } else {
        s.append(" [");
        s.append(progress.as_str());
        s.append("]");
    }
    s
}

impl SyncState {
    /// A fresh loop memory: nothing reported yet.
    pub fn new() -> (s: SyncState)
        ensures
            s.last_playing is None,
    {
        SyncState { last_playing: None }
    }
}

/// One cycle's decisions.  An active record emits a status line exactly
/// when its key differs from the remembered one, and asks for a
/// presence update only while actually playing.  An idle answer emits
/// the idle placeholder and clears the presence exactly once — only
/// when something had been playing.  A failed poll changes nothing.
pub fn sync_step(state: &mut SyncState, event: &FetchEvent) -> (acts: SyncActions)
    ensures
        match *event {
            FetchEvent::Active(np) => {
                &&& final(state).last_playing matches Some(k) && k@ == identity_key_text(np)
                &&& same_as_last(*old(state), np) ==> acts.status is None
                &&& !same_as_last(*old(state), np) ==> (acts.status matches Some(line)
                    && line matches Some(s) && s@ == status_line_text(np))
                &&& acts.presence == (if np.player_state == PlayerState::Playing {
                    PresenceAction::Update
                } else {
                    PresenceAction::Clear
                })
            },
            FetchEvent::Idle => {
                &&& old(state).last_playing is Some ==> {
                    &&& final(state).last_playing is None
                    &&& acts.status matches Some(line) && line is None
                    &&& acts.presence == PresenceAction::Clear
                }
                &&& old(state).last_playing is None ==> {
                    &&& *final(state) == *old(state)
                    &&& acts.status is None
                    &&& acts.presence == PresenceAction::Keep
                }
            },
            FetchEvent::Failed => {
                &&& *final(state) == *old(state)
                &&& acts.status is None
                &&& acts.presence == PresenceAction::Keep
            },
        },
{
    match event {
        FetchEvent::Active(np) => {
            let key = identity_key(np);
            let changed: bool = match &state.last_playing {
                Some(prev) => !(*prev == key),
                None => true,
            };
            let status: Option<Option<String>> = if changed {
                Some(Some(status_line(np)))
            } else {
                None
            };
            state.last_playing = Some(key);
            let presence = if np.player_state == PlayerState::Playing {
                PresenceAction::Update
            } else {
                PresenceAction::Clear
            };
            SyncActions { status, presence }
        },
        FetchEvent::Idle => {
            if state.last_playing.is_some() {
                state.last_playing = None;
                SyncActions { status: Some(None), presence: PresenceAction::Clear }
            } else {
                SyncActions { status: None, presence: PresenceAction::Keep }
            }
        },
        FetchEvent::Failed => SyncActions { status: None, presence: PresenceAction::Keep },
    }
}

} // verus!
