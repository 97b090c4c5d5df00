//! The shared session state: the server-assigned session id and the connection
//! configuration, and the addresses built from them.

use crate::config::Config;
use crate::text::{decimal, push_decimal};
use vstd::prelude::*;
use vstd::string::StringExecFns;

verus! {

/// A lowercase hexadecimal digit for `d < 16`.
pub open spec fn hex_char(d: nat) -> char {
    if d < 10 {
        ((d + 48) as u8) as char
    } else {
        ((d + 87) as u8) as char
    }
}

/// The `k` lowest hexadecimal digits of `v`, most significant first.
pub open spec fn hex_digits(v: nat, k: nat) -> Seq<char>
    decreases k,
{
    if k == 0 {
        Seq::empty()
    } else {
        hex_digits(v / 16, (k - 1) as nat) + seq![hex_char(v % 16)]
    }
}

/// The hyphenated lowercase form of the UUID whose big-endian value is `v`: 32 hexadecimal
/// digits in groups of 8, 4, 4, 4 and 12.
pub open spec fn hyphenated(v: u128) -> Seq<char> {
    let h = hex_digits(v as nat, 32);
    h.subrange(0, 8) + seq!['-'] + h.subrange(8, 12) + seq!['-'] + h.subrange(12, 16) + seq!['-']
        + h.subrange(16, 20) + seq!['-'] + h.subrange(20, 32)
}

/// Relies on `uuid::Uuid::from_u128` and the uuid crate's `Display`, which writes the
/// hyphenated lowercase form of the value's big-endian bytes.
#[verifier::external_body]
fn uuid_text(v: u128) -> (r: String)
    ensures
        r@ == hyphenated(v),
{
    uuid::Uuid::from_u128(v).to_string()
}

/// Identifier the server gives a connection; zero is the nil id of a client that never
/// connected.
#[derive(Clone, Copy, PartialEq, Eq, Structural, Debug)]
pub struct SessionId {
    /// The UUID as a big-endian 128-bit value.
    pub value: u128,
}

impl SessionId {
    /// The nil id.
    pub fn nil() -> (r: Self)
        ensures
            r.value == 0,
    {
        SessionId { value: 0 }
    }

    /// Whether this is the nil id.
    pub fn is_nil(&self) -> (r: bool)
        ensures
            r == (self.value == 0),
    {
        self.value == 0
    }

    /// The hyphenated lowercase text of the id.
    pub fn text(&self) -> (r: String)
        ensures
            r@ == hyphenated(self.value),
    {
        uuid_text(self.value)
    }
}

/// `ws://` or `wss://`.
pub open spec fn socket_scheme(ssl: bool) -> Seq<char> {
    if ssl {
        "wss://"@
    } else {
        "ws://"@
    }
}

/// `http://` or `https://`.
pub open spec fn http_scheme(ssl: bool) -> Seq<char> {
    if ssl {
        "https://"@
    } else {
        "http://"@
    }
}

/// `{scheme}://{host}:{port}/ws`.
pub open spec fn socket_base(c: Config) -> Seq<char> {
    socket_scheme(c.ssl) + c.host@ + ":"@ + decimal(c.port as nat) + "/ws"@
}

/// `{scheme}://{host}:{port}/ws?shards={shards}&user_id={user_id}`.
pub open spec fn connect_address(c: Config) -> Seq<char> {
    socket_base(c) + "?shards="@ + decimal(c.shards as nat) + "&user_id="@ + decimal(
        c.user_id as nat,
    )
}

/// `{scheme}://{host}:{port}/ws/resume/{session}`.
pub open spec fn resume_address(c: Config, session: SessionId) -> Seq<char> {
    socket_base(c) + "/resume/"@ + hyphenated(session.value)
}

/// `{scheme}://{host}:{port}/api/v1`.
pub open spec fn api_base(c: Config) -> Seq<char> {
    http_scheme(c.ssl) + c.host@ + ":"@ + decimal(c.port as nat) + "/api/v1"@
}

/// `{api}/{session}/players/{guild}/{action}`.
pub open spec fn player_route(c: Config, session: SessionId, guild: u64, action: Seq<char>) -> Seq<
    char,
> {
    api_base(c) + "/"@ + hyphenated(session.value) + "/players/"@ + decimal(guild as nat) + "/"@
        + action
}

/// `{api}/search{route}`.
pub open spec fn search_route(c: Config, route: Seq<char>) -> Seq<char> {
    api_base(c) + "/search"@ + route
}

/// `{api}/info`, followed by `/{session}` when only the current session counts.
pub open spec fn info_route(c: Config, session: SessionId, current_session: bool) -> Seq<char> {
    if current_session {
        api_base(c) + "/info/"@ + hyphenated(session.value)
    } else {
        api_base(c) + "/info"@
    }
}

/// The session id and configuration that every component reads.
pub struct SessionState {
    /// The current session, nil until the server reports one.
    pub session: SessionId,
    /// The connection configuration.
    pub config: Config,
}

impl SessionState {
    /// A state with the given configuration and the nil session.
    pub fn new(config: Config) -> (r: Self)
        ensures
            r.session.value == 0,
            r.config == config,
    {
        SessionState { session: SessionId::nil(), config }
    }

    /// Records the session the server reported as ready.
    pub fn on_ready(&mut self, session: SessionId)
        ensures
            final(self).session == session,
            final(self).config == old(self).config,
    {
        self.session = session;
    }

    /// Records what the host gateway reports at start-up: its shard count and the bot's id.
    pub fn initialise(&mut self, shard_count: u64, user_id: u64)
        ensures
            final(self).session == old(self).session,
            final(self).config.shards == shard_count,
            final(self).config.user_id == user_id,
            final(self).config.host == old(self).config.host,
            final(self).config.port == old(self).config.port,
            final(self).config.password == old(self).config.password,
            final(self).config.ssl == old(self).config.ssl,
            final(self).config.connection_attempts == old(self).config.connection_attempts,
    {
        self.config.shards = shard_count;
        self.config.user_id = user_id;
    }

    fn push_host_port(&self, s: &mut String)
        ensures
            final(s)@ == old(s)@ + self.config.host@ + ":"@ + decimal(self.config.port as nat),
    {
        s.append(self.config.host.as_str());
        s.append(":");
        push_decimal(s, self.config.port as u64);
    }

    /// The address of the socket endpoint, without query.
    pub fn socket_base(&self) -> (r: String)
        ensures
            r@ == socket_base(self.config),
    {
        let mut s = if self.config.ssl {
            String::from_str("wss://")
        } else {
            String::from_str("ws://")
        };
        self.push_host_port(&mut s);
        s.append("/ws");
        s
    }

    /// The address that opens a new session.
    pub fn connect_address(&self) -> (r: String)
        ensures
            r@ == connect_address(self.config),
    {
        let mut s = self.socket_base();
        s.append("?shards=");
        push_decimal(&mut s, self.config.shards);
        s.append("&user_id=");
        push_decimal(&mut s, self.config.user_id);
        s
    }

    /// The address that resumes the current session; `None` while the session is nil.
    pub fn resume_address(&self) -> (r: Option<String>)
        ensures
            r is None <==> self.session.value == 0,
            r is Some ==> r->0@ == resume_address(self.config, self.session),
    {
        if self.session.is_nil() {
            None
        } else {
            let mut s = self.socket_base();
            s.append("/resume/");
            let t = self.session.text();
            s.append(t.as_str());
            Some(s)
        }
    }

    /// The base of the REST routes.
    pub fn api_base(&self) -> (r: String)
        ensures
            r@ == api_base(self.config),
    {
        let mut s = if self.config.ssl {
            String::from_str("https://")
        } else {
            String::from_str("http://")
        };
        self.push_host_port(&mut s);
        s.append("/api/v1");
        s
    }

    /// The REST route of a search source's `route`.
    pub fn search_route(&self, route: &str) -> (r: String)
        ensures
            r@ == search_route(self.config, route@),
    {
        let mut s = self.api_base();
        s.append("/search");
        s.append(route);
        s
    }

    /// The REST route of the server information.
    pub fn info_route(&self, current_session: bool) -> (r: String)
        ensures
            r@ == info_route(self.config, self.session, current_session),
    {
        let mut s = self.api_base();
        if current_session {
            s.append("/info/");
            let t = self.session.text();
            s.append(t.as_str());
        } else {
            s.append("/info");
        }
        s
    }

    /// The REST route of `action` on the player of `guild` in the current session.
    pub fn player_route(&self, guild: u64, action: &str) -> (r: String)
        ensures
            r@ == player_route(self.config, self.session, guild, action@),
    {
        let mut s = self.api_base();
        s.append("/");
        let t = self.session.text();
        s.append(t.as_str());
        s.append("/players/");
        push_decimal(&mut s, guild);
        s.append("/");
        s.append(action);
        s
    }
}

} // verus!
