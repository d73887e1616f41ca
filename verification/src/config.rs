//! The startup configuration the collaborators hand in: where the media
//! server lives, its token, and how often to poll.  Reading and writing
//! the file itself is the shell's business, not this crate's.
use vstd::prelude::*;

verus! {

/// The polling interval used when the configuration names none.
pub fn default_polling_interval() -> (r: u64)
    ensures
        r == 15,
{
    15
}

#[derive(Debug, Clone)]
pub struct PlexConfig {
    pub server_url: String,
    pub token: String,
}

#[derive(Debug, Clone)]
pub struct Config {
    pub plex: PlexConfig,
    pub polling_interval_secs: u64,
}

impl Default for Config {
    /// A placeholder configuration pointing at a local server.
    fn default() -> (r: Config)
        ensures
            r.plex.server_url@ == "http://localhost:32400"@,
            r.plex.token@ == "YOUR_PLEX_TOKEN_HERE"@,
            r.polling_interval_secs == 15,
    {
        Config {
            plex: PlexConfig {
                server_url: "http://localhost:32400".to_owned(),
                token: "YOUR_PLEX_TOKEN_HERE".to_owned(),
            },
            polling_interval_secs: 15,
        }
    }
}

} // verus!
