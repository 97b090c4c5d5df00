//! Voice connection information and the accumulator that gathers it from the two halves of
//! Discord's voice handshake.

use vstd::prelude::*;

verus! {

/// Everything the server needs to join a voice channel.
pub struct ConnectionInfo {
    /// Channel to connect to; `None` when the bot left voice.
    pub channel_id: Option<u64>,
    /// Voice server endpoint.
    pub endpoint: String,
    /// Voice session id.
    pub session_id: String,
    /// Voice token.
    pub token: String,
}

/// The fragments of a voice handshake received so far.
pub struct PartialConnectionInfo {
    /// Channel from the voice-state fragment.
    pub channel_id: Option<u64>,
    /// Endpoint from the voice-server fragment.
    pub endpoint: Option<String>,
    /// Session id from the voice-state fragment.
    pub session_id: Option<String>,
    /// Token from the voice-server fragment.
    pub token: Option<String>,
}

impl PartialConnectionInfo {
    /// All three required fields are present.
    pub open spec fn is_complete(&self) -> bool {
        self.endpoint is Some && self.session_id is Some && self.token is Some
    }

    /// Nothing has been received.
    pub open spec fn is_empty(&self) -> bool {
        self.channel_id is None && self.endpoint is None && self.session_id is None
            && self.token is None
    }

    /// An accumulator that has received nothing.
    pub fn new() -> (r: Self)
        ensures
            r.is_empty(),
    {
        PartialConnectionInfo { channel_id: None, endpoint: None, session_id: None, token: None }
    }

    /// Whether endpoint, session id and token are all present.
    pub fn complete(&self) -> (r: bool)
        ensures
            r == self.is_complete(),
    {
        self.endpoint.is_some() && self.session_id.is_some() && self.token.is_some()
    }

    /// The connection information held by a complete accumulator.
    pub fn into_info(self) -> (r: ConnectionInfo)
        requires
            self.is_complete(),
        ensures
            r.channel_id == self.channel_id,
            Some(r.endpoint) == self.endpoint,
            Some(r.session_id) == self.session_id,
            Some(r.token) == self.token,
    {
        match (self.endpoint, self.session_id, self.token) {
            (Some(endpoint), Some(session_id), Some(token)) => ConnectionInfo {
                channel_id: self.channel_id,
                endpoint,
                session_id,
                token,
            },
            _ => vstd::pervasive::unreached(),
        }
    }
}

impl Default for PartialConnectionInfo {
    fn default() -> (r: Self)
        ensures
            r.is_empty(),
    {
        PartialConnectionInfo::new()
    }
}

} // verus!
