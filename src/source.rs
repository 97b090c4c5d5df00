//! Search and play sources.

use crate::model::Track;
use vstd::prelude::*;
use vstd::string::StringExecFns;

verus! {

/// What `urlencoding::encode` returns for a text.
pub uninterp spec fn url_encoded(s: Seq<char>) -> Seq<char>;

/// An ASCII letter or digit, or one of `-`, `_`, `.`, `~`: the characters that
/// percent-encoding leaves alone.
pub open spec fn url_unreserved(c: char) -> bool {
    ('0' <= c <= '9') || ('A' <= c <= 'Z') || ('a' <= c <= 'z') || c == '-' || c == '_' || c
        == '.' || c == '~'
}

/// Relies on `urlencoding::encode`, which percent-encodes every byte of the text's UTF-8
/// form except ASCII letters, digits and `-`, `_`, `.`, `~`, and hands back a text made of
/// those characters alone unchanged; the empty text stays empty.
#[verifier::external_body]
fn url_encode(s: &str) -> (r: String)
    ensures
        r@ == url_encoded(s@),
        s@.len() == 0 ==> r@.len() == 0,
        (forall|i: int| 0 <= i < s@.len() ==> url_unreserved(#[trigger] s@[i])) ==> r@ == s@,
{
    urlencoding::encode(s).into_owned()
}

/// `/youtube/search?query={encoded query}`.
pub open spec fn youtube_search_route(query: Seq<char>) -> Seq<char> {
    "/youtube/search?query="@ + url_encoded(query)
}

/// `/youtube/playlist?playlist={encoded playlist}`.
pub open spec fn youtube_playlist_route(playlist: Seq<char>) -> Seq<char> {
    "/youtube/playlist?playlist="@ + url_encoded(playlist)
}

/// The routes of a search source.
pub trait SearchRoute {
    /// The route that searches `query` with this source.
    fn track(query: String) -> String;

    /// The route that lists the items of `playlist` with this source.
    fn playlist(playlist: String) -> String;
}

/// The YouTube search source.
pub struct Youtube;

impl Youtube {
    /// The route that searches `query` on YouTube.
    pub fn search_route(query: &str) -> (r: String)
        ensures
            r@ == youtube_search_route(query@),
    {
        let mut r = String::from_str("/youtube/search?query=");
        let e = url_encode(query);
        r.append(e.as_str());
        r
    }

    /// The route that lists a YouTube playlist.
    pub fn playlist_route(playlist: &str) -> (r: String)
        ensures
            r@ == youtube_playlist_route(playlist@),
    {
        let mut r = String::from_str("/youtube/playlist?playlist=");
        let e = url_encode(playlist);
        r.append(e.as_str());
        r
    }
}

impl SearchRoute for Youtube {
    fn track(query: String) -> String {
        Youtube::search_route(query.as_str())
    }

    fn playlist(playlist: String) -> String {
        Youtube::playlist_route(playlist.as_str())
    }
}

/// The `source` part of a play request.
pub enum PlayPayload {
    /// A link the server resolves itself.
    Link { link: String },
    /// A direct HTTP address, optionally with its track description, optionally forcing the
    /// server's downloader.
    Http { link: String, track: Option<Track>, force_ytdlp: bool },
    /// Raw audio bytes.
    Bytes { data: Vec<u8> },
}

/// Play from a link.
pub struct Link(pub String);

/// Play from a direct HTTP address.
pub struct Http(pub String);

/// Play from a direct HTTP address described by a track.
pub struct HttpWithTrack(pub String, pub Track);

/// Play from an address through the server's downloader.
pub struct ForceYtDlp(pub String);

/// Play raw bytes.
pub struct Bytes(pub Vec<u8>);

impl Link {
    /// The play request source for this link.
    pub fn value_for(self) -> (r: PlayPayload)
        ensures
            r == (PlayPayload::Link { link: self.0 }),
    {
        PlayPayload::Link { link: self.0 }
    }
}

impl Http {
    /// The play request source for this address.
    pub fn value_for(self) -> (r: PlayPayload)
        ensures
            r == (PlayPayload::Http { link: self.0, track: None, force_ytdlp: false }),
    {
        PlayPayload::Http { link: self.0, track: None, force_ytdlp: false }
    }
}

impl HttpWithTrack {
    /// The play request source for this address and track.
    pub fn value_for(self) -> (r: PlayPayload)
        ensures
            r == (PlayPayload::Http { link: self.0, track: Some(self.1), force_ytdlp: false }),
    {
        PlayPayload::Http { link: self.0, track: Some(self.1), force_ytdlp: false }
    }
}

impl ForceYtDlp {
    /// The play request source for this address, through the downloader.
    pub fn value_for(self) -> (r: PlayPayload)
        ensures
            r == (PlayPayload::Http { link: self.0, track: None, force_ytdlp: true }),
    {
        PlayPayload::Http { link: self.0, track: None, force_ytdlp: true }
    }
}

impl Bytes {
    /// The play request source for these bytes.
    pub fn value_for(self) -> (r: PlayPayload)
        ensures
            r == (PlayPayload::Bytes { data: self.0 }),
    {
        PlayPayload::Bytes { data: self.0 }
    }
}

} // verus!
