//! The presence channel: a connection handle to the rich-presence
//! transport, a reconnect cooldown, a failure backoff with a fixed
//! ceiling, and the rendering of a playback record into the transport's
//! payload.  Callers hand the current clock in as a millisecond count so
//! that every timing rule is stated, and proved, over plain numbers.
use crate::plex::{
    display_title_text, state_line_text, MediaType, NowPlaying, PlayerState,
};
use crate::text;
use discord_rich_presence::{activity, DiscordIpc, DiscordIpcClient};
use vstd::prelude::*;
use vstd::string::StringExecFns;

verus! {

/// Milliseconds that must pass between two connection attempts.
pub const RECONNECT_DELAY_MS: u64 = 10_000;

/// Milliseconds of rest after the failure ceiling is hit: three times
/// the reconnect delay.
pub const BACKOFF_WINDOW_MS: u64 = 30_000;

/// Consecutive failures at which the channel starts backing off.
pub const MAX_CONSECUTIVE_FAILURES: u32 = 3;

/// Why a presence operation was refused or failed.
#[derive(Debug, Clone, PartialEq, Eq, Structural)]
pub enum PresenceError {
    /// The reconnect cooldown has not elapsed yet.
    TooSoon,
    /// Too many consecutive failures; the channel is resting.
    Backoff,
    /// No transport connection could be established.
    NotConnected,
    /// Sending over the open connection failed; the handle was dropped.
    TransportSend,
}

/// Relies on `discord_rich_presence::DiscordIpcClient`: the transport's
/// connection handle.  Opaque here; only the trusted calls below touch it.
#[verifier::external_type_specification]
#[verifier::external_body]
pub struct ExDiscordIpcClient(DiscordIpcClient);

/// Relies on `DiscordIpcClient::new`: builds a handle carrying the
/// application identifier, without touching the transport.
#[verifier::external_body]
fn ipc_new(client_id: &str) -> DiscordIpcClient {
    DiscordIpcClient::new(client_id)
}

/// Relies on `DiscordIpc::connect`: opens the socket and performs the
/// handshake.  Success depends on the host, so nothing is promised of
/// the outcome.
#[verifier::external_body]
fn ipc_connect(client: &mut DiscordIpcClient) -> bool {
    client.connect().is_ok()
}

/// Relies on `DiscordIpc::close`: best-effort shutdown of the socket;
/// errors are swallowed, as the teardown path requires.
#[verifier::external_body]
fn ipc_close(client: &mut DiscordIpcClient) {
    let _ = client.close();
}

/// Relies on `DiscordIpc::set_activity`: sends the rendered payload,
/// assembled through the crate's builder types.  Success depends on the
/// host, so nothing is promised of the outcome.
#[verifier::external_body]
fn ipc_set_activity(
    client: &mut DiscordIpcClient,
    details: &str,
    state: &str,
    large_image: &str,
    large_text: &str,
    small_image: &str,
    small_text: &str,
    end_ts: Option<i64>,
) -> bool {
    let assets = activity::Assets::new()
        .large_image(large_image)
        .large_text(large_text)
        .small_image(small_image)
        .small_text(small_text);
    let mut act = activity::Activity::new().details(details).state(state).assets(assets);
    act = match end_ts {
        Some(t) => act.timestamps(activity::Timestamps::new().end(t)),
        None => act,
    };
    client.set_activity(act).is_ok()
}

/// Relies on `DiscordIpc::clear_activity`: asks the transport to drop
/// the displayed payload.  Success depends on the host.
#[verifier::external_body]
fn ipc_clear_activity(client: &mut DiscordIpcClient) -> bool {
    client.clear_activity().is_ok()
}

/// Truncating division by a thousand, the way the machine divides
/// signed numbers: toward zero.
pub open spec fn trunc_div_1000(x: int) -> int {
    if x >= 0 {
        x / 1000
    } else {
        -((-x) / 1000)
    }
}

/// The absolute second at which playback would end: the current second
/// plus the remaining whole seconds.
pub open spec fn end_time(now_ms: u64, duration_ms: i64, offset_ms: i64) -> int {
    now_ms as int / 1000 + trunc_div_1000(duration_ms - offset_ms)
}

/// The progress indicator's end stamp: present exactly when the record
/// is playing, both progress sides are known, and the stamp fits.
pub open spec fn end_timestamp_opt(np: NowPlaying, now_ms: u64) -> Option<i64> {
    if np.player_state == PlayerState::Playing {
        match (np.duration_ms, np.view_offset_ms) {
            (Some(d), Some(o)) => {
                let e = end_time(now_ms, d, o);
                if i64::MIN <= e <= i64::MAX {
                    Some(e as i64)
                } else {
                    None
                }
            },
            _ => None,
        }
    } else {
        None
    }
}

/// The large-image identifier: the record's artwork reference when it
/// has one, else a pre-registered icon for the media kind.
pub open spec fn large_image_text(np: NowPlaying) -> Seq<char> {
    match np.thumb_url {
        Some(u) => u@,
        None => match np.media_type {
            MediaType::Movie => "movie"@,
            MediaType::Episode => "tv"@,
            MediaType::Track => "music"@,
            MediaType::Unknown => "plex"@,
        },
    }
}

/// The large image's hover text.
pub open spec fn large_text_text(np: NowPlaying) -> Seq<char> {
    match np.thumb_url {
        Some(_) => display_title_text(np),
        None => match np.media_type {
            MediaType::Movie => "Watching a Movie"@,
            MediaType::Episode => "Watching TV"@,
            MediaType::Track => "Listening to Music"@,
            MediaType::Unknown => "Plex"@,
        },
    }
}

/// Everything the transport shows for one record.
#[derive(Debug, Clone)]
pub struct PresencePayload {
    pub details: String,
    pub state_line: String,
    pub large_image: String,
    pub large_text: String,
    pub small_image: String,
    pub small_text: String,
    pub end_timestamp: Option<i64>,
}

fn end_timestamp(now_ms: u64, duration_ms: i64, offset_ms: i64) -> (r: Option<i64>)
    ensures
        ({
            let e = end_time(now_ms, duration_ms, offset_ms);
            if i64::MIN <= e <= i64::MAX {
                r == Some(e as i64)
            } else {
                r is None
            }
        }),
{
    let now_s: u64 = now_ms / 1000;
    let rem: i128 = duration_ms as i128 - offset_ms as i128;
    let rem_s: i128 = if rem >= 0 {
        ((rem as u128) / 1000) as i128
    } else {
        let mag: u128 = ((-rem) as u128) / 1000;
        -(mag as i128)
    };
    let total: i128 = now_s as i128 + rem_s;
    if i64::MIN as i128 <= total && total <= i64::MAX as i128 {
        Some(total as i64)
    } else {
        None
    }
}

/// Renders a record into the payload the transport will show.  The end
/// stamp appears only for an actively playing record with known
/// progress; a paused or buffering record shows none.
pub fn render_payload(np: &NowPlaying, now_ms: u64) -> (p: PresencePayload)
    ensures
        p.details@ == display_title_text(*np),
        p.state_line@ == state_line_text(*np),
        p.large_image@ == large_image_text(*np),
        p.large_text@ == large_text_text(*np),
        p.small_image@ == "plex"@,
        p.small_text@ == "Plex"@,
        p.end_timestamp == end_timestamp_opt(*np, now_ms),
{
    let end_ts: Option<i64> = if np.player_state == PlayerState::Playing {
        match (np.duration_ms, np.view_offset_ms) {
            (Some(d), Some(o)) => end_timestamp(now_ms, d, o),
            _ => None,
        }
    } else {
        None
    };
    let (large_image, large_text): (String, String) = match &np.thumb_url {
        Some(url) => (url.clone(), np.display_title()),
        None => match np.media_type {
            MediaType::Movie => ("movie".to_owned(), "Watching a Movie".to_owned()),
            MediaType::Episode => ("tv".to_owned(), "Watching TV".to_owned()),
            MediaType::Track => ("music".to_owned(), "Listening to Music".to_owned()),
            MediaType::Unknown => ("plex".to_owned(), "Plex".to_owned()),
        },
    };
    PresencePayload {
        details: np.display_title(),
        state_line: np.state_line(),
        large_image,
        large_text,
        small_image: "plex".to_owned(),
        small_text: "Plex".to_owned(),
        end_timestamp: end_ts,
    }
}

/// Milliseconds as `M:SS`, or `H:MM:SS` once an hour is reached; a
/// negative count renders as zero.
pub fn format_duration(ms: i64) -> (r: String)
    ensures
        r@ == text::duration_text(text::clamp_ms(ms as int)),
{
    let nn: u64 = if ms < 0 {
        0
    } else {
        ms as u64
    };
    text::duration_string(nn)
}

/// The presence channel's whole state: the handle when connected, the
/// clock of the last connection attempt, and the failure counter.
pub struct DiscordPresence {
    client_id: String,
    client: Option<DiscordIpcClient>,
    last_connect_attempt: Option<u64>,
    consecutive_failures: u32,
}

/// A connection attempt at `now_ms` would still be inside the cooldown.
pub open spec fn in_cooldown(pre: DiscordPresence, now_ms: u64) -> bool {
    pre.spec_last_attempt() matches Some(t) && now_ms < t + RECONNECT_DELAY_MS
}

/// The channel is at its failure ceiling and the rest window has not
/// elapsed, so an update is refused outright.
pub open spec fn backoff_refused(pre: DiscordPresence, now_ms: u64) -> bool {
    &&& pre.spec_failures() >= MAX_CONSECUTIVE_FAILURES
    &&& pre.spec_last_attempt() matches Some(t) && now_ms < t + BACKOFF_WINDOW_MS
}

/// The failure counter an update proceeds with: a counter at the
/// ceiling is reset once the rest window has passed.
pub open spec fn reset_failures(pre: DiscordPresence) -> u32 {
    if pre.spec_failures() >= MAX_CONSECUTIVE_FAILURES {
        0
    } else {
        pre.spec_failures()
    }
}

impl DiscordPresence {
    pub closed spec fn spec_client_id(&self) -> Seq<char> {
        self.client_id@
    }

    pub closed spec fn spec_connected(&self) -> bool {
        self.client is Some
    }

    pub closed spec fn spec_last_attempt(&self) -> Option<u64> {
        self.last_connect_attempt
    }

    pub closed spec fn spec_failures(&self) -> u32 {
        self.consecutive_failures
    }

    /// The failure counter never passes the ceiling.
    pub open spec fn wf(&self) -> bool {
        self.spec_failures() <= MAX_CONSECUTIVE_FAILURES
    }

    /// The clock handed in never runs behind the recorded attempt.
    pub open spec fn clock_ok(&self, now_ms: u64) -> bool {
        match self.spec_last_attempt() {
            Some(t) => t <= now_ms,
            None => true,
        }
    }

    /// A fresh, disconnected channel for one application identifier.
    pub fn new(client_id: &str) -> (r: Result<DiscordPresence, PresenceError>)
        ensures
            r is Ok,
            r matches Ok(p) ==> {
                &&& p.wf()
                &&& !p.spec_connected()
                &&& p.spec_failures() == 0
                &&& p.spec_last_attempt() is None
                &&& p.spec_client_id() == client_id@
            },
    {
        Ok(
            DiscordPresence {
                client_id: client_id.to_owned(),
                client: None,
                last_connect_attempt: None,
                consecutive_failures: 0,
            },
        )
    }

    /// Opens a fresh transport connection, unless the cooldown since the
    /// last attempt has not elapsed.  A refused attempt changes nothing;
    /// any other attempt is recorded, success stores the handle and
    /// clears the failure counter, and an open failure leaves the
    /// channel disconnected with the counter untouched.
    pub fn connect(&mut self, now_ms: u64) -> (r: Result<(), PresenceError>)
        requires
            old(self).wf(),
            old(self).clock_ok(now_ms),
        ensures
            final(self).wf(),
            final(self).clock_ok(now_ms),
            final(self).spec_client_id() == old(self).spec_client_id(),
            r == Err::<(), PresenceError>(PresenceError::TooSoon) <==> in_cooldown(
                *old(self),
                now_ms,
            ),
            in_cooldown(*old(self), now_ms) ==> *final(self) == *old(self),
            !in_cooldown(*old(self), now_ms) ==> final(self).spec_last_attempt() == Some(now_ms),
            r is Ok ==> final(self).spec_connected() && final(self).spec_failures() == 0,
            r == Err::<(), PresenceError>(PresenceError::NotConnected) ==> !final(self).spec_connected() && final(self).spec_failures() == old(self).spec_failures(),
            r is Err ==> r == Err::<(), PresenceError>(PresenceError::TooSoon) || r == Err::<
                (),
                PresenceError,
            >(PresenceError::NotConnected),
    {
        if let Some(t) = self.last_connect_attempt {
            if now_ms - t < RECONNECT_DELAY_MS {
                return Err(PresenceError::TooSoon);
            }
        }
        self.last_connect_attempt = Some(now_ms);
        match &mut self.client {
            Some(c) => ipc_close(c),
            None => (),
        }
        self.client = None;
        let mut fresh = ipc_new(self.client_id.as_str());
        if ipc_connect(&mut fresh) {
            self.client = Some(fresh);
            self.consecutive_failures = 0;
            Ok(())
        } else {
            Err(PresenceError::NotConnected)
        }
    }

    /// Sends the rendered payload for a record.  An update at the
    /// failure ceiling inside the rest window is refused and changes
    /// nothing; past the window the counter resets and a normal attempt
    /// follows.  A live handle is reused as it stands — no reconnect —
    /// and a send failure drops the handle so the next call reconnects.
    pub fn update_presence(&mut self, now_playing: &NowPlaying, now_ms: u64) -> (r: Result<
        (),
        PresenceError,
    >)
        requires
            old(self).wf(),
            old(self).clock_ok(now_ms),
        ensures
            final(self).wf(),
            final(self).clock_ok(now_ms),
            final(self).spec_client_id() == old(self).spec_client_id(),
            r == Err::<(), PresenceError>(PresenceError::Backoff) <==> backoff_refused(
                *old(self),
                now_ms,
            ),
            backoff_refused(*old(self), now_ms) ==> *final(self) == *old(self),
            !backoff_refused(*old(self), now_ms) && old(self).spec_connected() ==> final(self).spec_last_attempt() == old(self).spec_last_attempt(),
            !backoff_refused(*old(self), now_ms) ==> (r == Err::<(), PresenceError>(
                PresenceError::TooSoon,
            ) <==> !old(self).spec_connected() && in_cooldown(*old(self), now_ms)),
            r is Ok ==> final(self).spec_connected() && final(self).spec_failures() == 0,
            r == Err::<(), PresenceError>(PresenceError::TooSoon) ==> !final(self).spec_connected() && final(self).spec_failures() == reset_failures(*old(self)) + 1
                && final(self).spec_last_attempt() == old(self).spec_last_attempt(),
            r == Err::<(), PresenceError>(PresenceError::NotConnected) ==> !final(self).spec_connected() && final(self).spec_failures() == reset_failures(*old(self)) + 1,
            r == Err::<(), PresenceError>(PresenceError::TransportSend) ==> !final(self).spec_connected() && final(self).spec_failures() == (if old(self).spec_connected() {
                reset_failures(*old(self)) + 1
            } else {
                1int
            }),
    {
        if self.consecutive_failures >= MAX_CONSECUTIVE_FAILURES {
            if let Some(t) = self.last_connect_attempt {
                if now_ms - t < BACKOFF_WINDOW_MS {
                    return Err(PresenceError::Backoff);
                }
            }
            self.consecutive_failures = 0;
        }
        if self.client.is_none() {
            match self.connect(now_ms) {
                Ok(()) => (),
                Err(e) => {
                    self.consecutive_failures = self.consecutive_failures + 1;
                    return Err(e);
                },
            }
        }
        let payload = render_payload(now_playing, now_ms);
        let sent: bool = match &mut self.client {
            Some(c) => ipc_set_activity(
                c,
                payload.details.as_str(),
                payload.state_line.as_str(),
                payload.large_image.as_str(),
                payload.large_text.as_str(),
                payload.small_image.as_str(),
                payload.small_text.as_str(),
                payload.end_timestamp,
            ),
            None => {
                // Mirrors the original's guard; the branch cannot be
                // reached, as a successful connect just stored a handle.
                self.consecutive_failures = self.consecutive_failures + 1;
                return Err(PresenceError::NotConnected);
            },
        };
        if sent {
            self.consecutive_failures = 0;
            Ok(())
        } else {
            self.consecutive_failures = self.consecutive_failures + 1;
            self.disconnect();
            Err(PresenceError::TransportSend)
        }
    }

    /// Clears whatever the transport displays.  Doing nothing while
    /// disconnected is success; a transport failure drops the handle
    /// and surfaces the error.  The counters are never touched.
    pub fn clear_presence(&mut self) -> (r: Result<(), PresenceError>)
        ensures
            final(self).spec_client_id() == old(self).spec_client_id(),
            final(self).spec_failures() == old(self).spec_failures(),
            final(self).spec_last_attempt() == old(self).spec_last_attempt(),
            final(self).wf() == old(self).wf(),
            !old(self).spec_connected() ==> r is Ok && *final(self) == *old(self),
            r is Ok ==> final(self).spec_connected() == old(self).spec_connected(),
            r is Err ==> r == Err::<(), PresenceError>(PresenceError::TransportSend) && !final(self).spec_connected() && old(self).spec_connected(),
    {
        let cleared: bool = match &mut self.client {
            Some(c) => ipc_clear_activity(c),
            None => {
                return Ok(());
            },
        };
        if cleared {
            Ok(())
        } else {
            self.disconnect();
            Err(PresenceError::TransportSend)
        }
    }

    /// Best-effort teardown: closes any open handle, swallowing errors,
    /// and leaves the channel disconnected.
    pub fn disconnect(&mut self)
        ensures
            !final(self).spec_connected(),
            final(self).spec_client_id() == old(self).spec_client_id(),
            final(self).spec_failures() == old(self).spec_failures(),
            final(self).spec_last_attempt() == old(self).spec_last_attempt(),
            final(self).wf() == old(self).wf(),
    {
        match &mut self.client {
            Some(c) => ipc_close(c),
            None => (),
        }
        self.client = None;
    }

    pub fn is_connected(&self) -> (r: bool)
        ensures
            r == self.spec_connected(),
    {
        self.client.is_some()
    }
}

} // verus!
