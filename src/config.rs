//! Connection configuration.

use vstd::prelude::*;
use vstd::string::StringExecFns;

verus! {

/// The user id that a default configuration carries until the real one is known; a client
/// must never be built with it.
pub const PLACEHOLDER_USER_ID: u64 = 1;

/// How to reach the server and who the bot is.
pub struct Config {
    /// Host name of the server.
    pub host: String,
    /// Port of the server.
    pub port: u16,
    /// Password sent as the authorization header.
    pub password: String,
    /// Whether to use the secure schemes (`wss`, `https`).
    pub ssl: bool,
    /// The bot's user id.
    pub user_id: u64,
    /// Number of gateway shards the bot runs.
    pub shards: u64,
    /// How many handshakes a connect tries before it gives up.
    pub connection_attempts: u32,
}

impl Config {
    /// The configuration names a real user: neither zero nor the placeholder.
    pub open spec fn has_user(&self) -> bool {
        self.user_id != 0 && self.user_id != PLACEHOLDER_USER_ID
    }

    /// Whether the configuration names a real user.
    pub fn has_user_id(&self) -> (r: bool)
        ensures
            r == self.has_user(),
    {
        self.user_id != 0 && self.user_id != PLACEHOLDER_USER_ID
    }
}

impl Default for Config {
    fn default() -> (r: Self)
        ensures
            r.host@ == "localhost"@,
            r.port == 8081,
            r.password@ == "mypassword"@,
            !r.ssl,
            r.user_id == PLACEHOLDER_USER_ID,
            r.shards == 1,
            r.connection_attempts == 5,
    {
        Config {
            host: String::from_str("localhost"),
            port: 8081,
            password: String::from_str("mypassword"),
            ssl: false,
            user_id: PLACEHOLDER_USER_ID,
            shards: 1,
            connection_attempts: 5,
        }
    }
}

/// Session resumption settings.
pub struct SessionConfig {
    /// Whether a dropped session may be resumed.
    pub enable_resume: bool,
    /// How long, in seconds, the server keeps a dropped session resumable.
    pub reconnect_secs: u64,
}

impl Default for SessionConfig {
    fn default() -> (r: Self)
        ensures
            r.enable_resume,
            r.reconnect_secs == 60,
    {
        SessionConfig { enable_resume: true, reconnect_secs: 60 }
    }
}

} // verus!
