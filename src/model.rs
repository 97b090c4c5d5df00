//! Values exchanged with the server.

use crate::json::Json;
use crate::session::SessionId;
use vstd::prelude::*;

verus! {

/// A playable track as the server describes it.
#[derive(Clone, Debug)]
pub struct Track {
    /// Track name.
    pub track: Option<String>,
    /// Artist.
    pub artist: Option<String>,
    /// Album.
    pub album: Option<String>,
    /// Channel that published it.
    pub channel: Option<String>,
    /// Length in milliseconds.
    pub duration: Option<u64>,
    /// Where it comes from.
    pub source_url: Option<String>,
    /// Title.
    pub title: Option<String>,
    /// Thumbnail address.
    pub thumbnail: Option<String>,
}

/// A player as the server reports it.
pub struct PlayerInfo {
    /// Guild of the player.
    pub guild_id: u64,
    /// Voice channel it is connected to.
    pub channel_id: Option<u64>,
    /// Whether playback is paused.
    pub paused: bool,
    /// Volume.
    pub volume: u8,
    /// Track being played.
    pub currently_playing: Option<Track>,
    /// Tracks waiting.
    pub queue: Vec<Track>,
}

/// Error message returned by the server.
pub struct ErrorResponse {
    /// The message.
    pub message: String,
}

/// Track related events received from the server.
pub enum Event {
    /// A track has started playing.
    TrackStart(Track),
    /// A track had an error while playing or trying to play.
    TrackErrored(TrackErrored),
    /// A track ended, either skipped or finished.
    TrackEnd(TrackEnd),
}

/// Event fired when a track had an error.
pub struct TrackErrored {
    /// The error that occurred.
    pub error: String,
    /// The track itself.
    pub track: Track,
}

/// Event fired when a track finishes its playback.
pub struct TrackEnd {
    /// Whether the track was stopped by hand.
    pub stopped: bool,
    /// The track itself.
    pub track: Track,
}

/// Voice connection changes of the server.
pub enum UpdateState {
    /// The server connected to a voice channel.
    ConnectGateway(ConnectionData),
    /// The server reconnected to a voice channel after a network issue.
    ReconnectGateway(ConnectionData),
    /// The server left a voice channel, by request, kick or move.
    DisconnectGateway(DisconnectData),
}

/// A voice connection of the server.
pub struct ConnectionData {
    /// Channel connected to.
    pub channel_id: Option<u64>,
    /// Guild connected in.
    pub guild_id: u64,
    /// Voice session id.
    pub session_id: String,
    /// Voice server connected to.
    pub server: String,
    /// Synchronisation source of the connection.
    pub ssrc: u32,
}

/// A voice connection the server left.
pub struct DisconnectData {
    /// Channel left.
    pub channel_id: Option<u64>,
    /// Guild of the channel.
    pub guild_id: u64,
    /// Voice session id of the previous connection.
    pub session_id: String,
}

/// The ready message, sent when a connection is established.
pub struct Ready {
    /// Whether the session was resumed.
    pub resumed: bool,
    /// The session id.
    pub session: SessionId,
    /// Players of the session; present only on resumed connections.
    pub players: Option<Vec<PlayerInfo>>,
}

/// A request of the server to send a payload on a gateway shard.
pub struct Forward {
    /// The shard that should send the payload.
    pub shard: u64,
    /// The payload, passed on unchanged.
    pub payload: Json,
}

/// A message received from the server.
pub enum Envelope {
    /// The connection is ready.
    Ready(Ready),
    /// A payload to send on a gateway shard.
    Forward(Forward),
    /// A voice connection change.
    UpdateState(UpdateState),
    /// A playback event of a guild's player.
    Event { guild_id: u64, event: Event },
}

/// Memory usage of the server.
pub struct MemoryInfo {
    /// Resident memory in bytes.
    pub memory: u64,
    /// Virtual memory in bytes.
    pub virtual_memory: u64,
}

/// Playback statistics of the server.
pub struct PlaybackInfo {
    /// Number of players.
    pub players: u64,
    /// Number of players that are playing.
    pub playing: u64,
}

/// A YouTube playlist.
pub struct YoutubePlaylist {
    /// Name of the playlist.
    pub name: String,
    /// Playlist id.
    pub id: String,
    /// Address of the playlist.
    pub url: String,
    /// Channel that owns it.
    pub channel: String,
    /// Thumbnail address.
    pub thumbnail: Option<String>,
    /// Tracks of the playlist.
    pub tracks: Vec<YoutubeTrack>,
}

/// A YouTube search result.
pub struct YoutubeTrack {
    /// Title of the video.
    pub title: String,
    /// Author, if known.
    pub author: Option<String>,
    /// Length in milliseconds.
    pub length: u128,
    /// Video id.
    pub video_id: String,
    /// Address of the video.
    pub url: String,
    /// Thumbnail address.
    pub thumbnail: String,
}

} // verus!
