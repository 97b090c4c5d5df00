//! The server's wire format: how its messages read as JSON values, and the values the
//! library sends.

use crate::connection::ConnectionInfo;
use crate::json::{
    Json, field, push_member, read_bool, read_id, read_opt_id, read_opt_text, read_opt_u64,
    read_text, read_u64, text_is,
};
use crate::player::VoiceUpdate;
use crate::source::PlayPayload;
use crate::model::{
    ConnectionData, DisconnectData, Envelope, Event, Forward, PlayerInfo, Ready, TrackEnd,
    TrackErrored, Track, UpdateState,
};
use crate::session::SessionId;
use vstd::prelude::*;

verus! {

broadcast use vstd::string::group_string_axioms;

/// A 32-bit unsigned integer.
pub open spec fn read_u32(j: Option<Json>) -> Option<u32> {
    match read_u64(j) {
        Some(n) => if n <= u32::MAX {
            Some(n as u32)
        } else {
            None
        },
        None => None,
    }
}

/// The track an object describes: eight optional members, `duration` in milliseconds.
pub open spec fn track_of(j: Json) -> Option<Track> {
    let track = read_opt_text(field(j, "track"@));
    let artist = read_opt_text(field(j, "artist"@));
    let album = read_opt_text(field(j, "album"@));
    let channel = read_opt_text(field(j, "channel"@));
    let duration = read_opt_u64(field(j, "duration"@));
    let source_url = read_opt_text(field(j, "source_url"@));
    let title = read_opt_text(field(j, "title"@));
    let thumbnail = read_opt_text(field(j, "thumbnail"@));
    if j is Object && track is Some && artist is Some && album is Some && channel is Some
        && duration is Some && source_url is Some && title is Some && thumbnail is Some {
        Some(
            Track {
                track: track->0,
                artist: artist->0,
                album: album->0,
                channel: channel->0,
                duration: duration->0,
                source_url: source_url->0,
                title: title->0,
                thumbnail: thumbnail->0,
            },
        )
    } else {
        None
    }
}

/// Reads a track.
pub fn decode_track(j: &Json) -> (r: Option<Track>)
    ensures
        r == track_of(*j),
{
    if !j.is_object() {
        return None;
    }
    let track = j.opt_text_at("track");
    let artist = j.opt_text_at("artist");
    let album = j.opt_text_at("album");
    let channel = j.opt_text_at("channel");
    let duration = j.opt_u64_at("duration");
    let source_url = j.opt_text_at("source_url");
    let title = j.opt_text_at("title");
    let thumbnail = j.opt_text_at("thumbnail");
    match (track, artist, album, channel, duration, source_url, title, thumbnail) {
        (
            Some(track),
            Some(artist),
            Some(album),
            Some(channel),
            Some(duration),
            Some(source_url),
            Some(title),
            Some(thumbnail),
        ) => Some(
            Track { track, artist, album, channel, duration, source_url, title, thumbnail },
        ),
        _ => None,
    }
}

/// The member `key` read as a track.
pub open spec fn read_track(j: Option<Json>) -> Option<Track> {
    match j {
        Some(v) => track_of(v),
        None => None,
    }
}

fn track_at(j: &Json, key: &str) -> (r: Option<Track>)
    ensures
        r == read_track(field(*j, key@)),
{
    match j.get(key) {
        Some(v) => decode_track(v),
        None => None,
    }
}

/// The track event a `{"type", "data"}` object describes.
pub open spec fn event_of(j: Json) -> Option<Event> {
    let data = field(j, "data"@);
    match read_text(field(j, "type"@)) {
        Some(t) => if t@ == "track_start"@ {
            match read_track(data) {
                Some(track) => Some(Event::TrackStart(track)),
                None => None,
            }
        } else if t@ == "track_errored"@ {
            match data {
                Some(d) => match (read_text(field(d, "error"@)), read_track(field(d, "track"@))) {
                    (Some(error), Some(track)) => Some(
                        Event::TrackErrored(TrackErrored { error, track }),
                    ),
                    _ => None,
                },
                None => None,
            }
        } else if t@ == "track_end"@ {
            match data {
                Some(d) => match (read_bool(field(d, "stopped"@)), read_track(field(d, "track"@))) {
                    (Some(stopped), Some(track)) => Some(
                        Event::TrackEnd(TrackEnd { stopped, track }),
                    ),
                    _ => None,
                },
                None => None,
            }
        } else {
            None
        },
        None => None,
    }
}

/// Reads a track event.
pub fn decode_event(j: &Json) -> (r: Option<Event>)
    ensures
        r == event_of(*j),
{
    let t = match j.text_at("type") {
        Some(t) => t,
        None => return None,
    };
    if text_is(&t, "track_start") {
        match track_at(j, "data") {
            Some(track) => Some(Event::TrackStart(track)),
            None => None,
        }
    } else if text_is(&t, "track_errored") {
        match j.get("data") {
            Some(d) => match (d.text_at("error"), track_at(d, "track")) {
                (Some(error), Some(track)) => Some(Event::TrackErrored(TrackErrored { error, track })),
                _ => None,
            },
            None => None,
        }
    } else if text_is(&t, "track_end") {
        match j.get("data") {
            Some(d) => match (d.bool_at("stopped"), track_at(d, "track")) {
                (Some(stopped), Some(track)) => Some(Event::TrackEnd(TrackEnd { stopped, track })),
                _ => None,
            },
            None => None,
        }
    } else {
        None
    }
}

/// The voice connection an object describes.
pub open spec fn connection_data_of(j: Json) -> Option<ConnectionData> {
    match (
        read_opt_id(field(j, "channel_id"@)),
        read_id(field(j, "guild_id"@)),
        read_text(field(j, "session_id"@)),
        read_text(field(j, "server"@)),
        read_u32(field(j, "ssrc"@)),
    ) {
        (Some(channel_id), Some(guild_id), Some(session_id), Some(server), Some(ssrc)) => Some(
            ConnectionData { channel_id, guild_id, session_id, server, ssrc },
        ),
        _ => None,
    }
}

/// The closed voice connection an object describes.
pub open spec fn disconnect_data_of(j: Json) -> Option<DisconnectData> {
    match (
        read_opt_id(field(j, "channel_id"@)),
        read_id(field(j, "guild_id"@)),
        read_text(field(j, "session_id"@)),
    ) {
        (Some(channel_id), Some(guild_id), Some(session_id)) => Some(
            DisconnectData { channel_id, guild_id, session_id },
        ),
        _ => None,
    }
}

fn u32_at(j: &Json, key: &str) -> (r: Option<u32>)
    ensures
        r == read_u32(field(*j, key@)),
{
    match j.u64_at(key) {
        Some(n) => if n <= u32::MAX as u64 {
            Some(n as u32)
        } else {
            None
        },
        None => None,
    }
}

fn decode_connection_data(j: &Json) -> (r: Option<ConnectionData>)
    ensures
        r == connection_data_of(*j),
{
    match (j.opt_id_at("channel_id"), j.id_at("guild_id"), j.text_at("session_id"), j.text_at("server"), u32_at(j, "ssrc")) {
        (Some(channel_id), Some(guild_id), Some(session_id), Some(server), Some(ssrc)) => Some(
            ConnectionData { channel_id, guild_id, session_id, server, ssrc },
        ),
        _ => None,
    }
}

fn decode_disconnect_data(j: &Json) -> (r: Option<DisconnectData>)
    ensures
        r == disconnect_data_of(*j),
{
    match (j.opt_id_at("channel_id"), j.id_at("guild_id"), j.text_at("session_id")) {
        (Some(channel_id), Some(guild_id), Some(session_id)) => Some(
            DisconnectData { channel_id, guild_id, session_id },
        ),
        _ => None,
    }
}

/// The voice connection change a `{"type", "data"}` object describes.
pub open spec fn update_state_of(j: Json) -> Option<UpdateState> {
    match (read_text(field(j, "type"@)), field(j, "data"@)) {
        (Some(t), Some(d)) => if t@ == "connect_gateway"@ {
            match connection_data_of(d) {
                Some(c) => Some(UpdateState::ConnectGateway(c)),
                None => None,
            }
        } else if t@ == "reconnect_gateway"@ {
            match connection_data_of(d) {
                Some(c) => Some(UpdateState::ReconnectGateway(c)),
                None => None,
            }
        } else if t@ == "disconnect_gateway"@ {
            match disconnect_data_of(d) {
                Some(c) => Some(UpdateState::DisconnectGateway(c)),
                None => None,
            }
        } else {
            None
        },
        _ => None,
    }
}

/// Reads a voice connection change.
pub fn decode_update_state(j: &Json) -> (r: Option<UpdateState>)
    ensures
        r == update_state_of(*j),
{
    let (t, d) = match (j.text_at("type"), j.get("data")) {
        (Some(t), Some(d)) => (t, d),
        _ => return None,
    };
    if text_is(&t, "connect_gateway") {
        match decode_connection_data(d) {
            Some(c) => Some(UpdateState::ConnectGateway(c)),
            None => None,
        }
    } else if text_is(&t, "reconnect_gateway") {
        match decode_connection_data(d) {
            Some(c) => Some(UpdateState::ReconnectGateway(c)),
            None => None,
        }
    } else if text_is(&t, "disconnect_gateway") {
        match decode_disconnect_data(d) {
            Some(c) => Some(UpdateState::DisconnectGateway(c)),
            None => None,
        }
    } else {
        None
    }
}

/// An 8-bit unsigned integer.
pub open spec fn read_u8(j: Option<Json>) -> Option<u8> {
    match read_u64(j) {
        Some(n) => if n <= u8::MAX {
            Some(n as u8)
        } else {
            None
        },
        None => None,
    }
}

fn u8_at(j: &Json, key: &str) -> (r: Option<u8>)
    ensures
        r == read_u8(field(*j, key@)),
{
    match j.u64_at(key) {
        Some(n) => if n <= u8::MAX as u64 {
            Some(n as u8)
        } else {
            None
        },
        None => None,
    }
}

/// An optional track: absent or `null` read as `None`.
pub open spec fn read_opt_track(j: Option<Json>) -> Option<Option<Track>> {
    match j {
        None => Some(None),
        Some(Json::Null) => Some(None),
        Some(v) => match track_of(v) {
            Some(t) => Some(Some(t)),
            None => None,
        },
    }
}

fn opt_track_at(j: &Json, key: &str) -> (r: Option<Option<Track>>)
    ensures
        r == read_opt_track(field(*j, key@)),
{
    match j.get(key) {
        None => Some(None),
        Some(Json::Null) => Some(None),
        Some(v) => match decode_track(v) {
            Some(t) => Some(Some(t)),
            None => None,
        },
    }
}

/// `ts` are the tracks `items` describe, one for one.
pub open spec fn tracks_read(items: Seq<Json>, ts: Seq<Track>) -> bool {
    &&& ts.len() == items.len()
    &&& forall|i: int| 0 <= i < items.len() ==> track_of(#[trigger] items[i]) == Some(ts[i])
}

/// Every item describes a track.
pub open spec fn all_tracks(items: Seq<Json>) -> bool {
    forall|i: int| 0 <= i < items.len() ==> (#[trigger] track_of(items[i])) is Some
}

fn decode_tracks(items: &Vec<Json>) -> (r: Option<Vec<Track>>)
    ensures
        r is Some <==> all_tracks(items@),
        r is Some ==> tracks_read(items@, r->0@),
{
    let mut out: Vec<Track> = Vec::new();
    let mut i: usize = 0;
    while i < items.len()
        invariant
            i <= items@.len(),
            all_tracks(items@.subrange(0, i as int)),
            tracks_read(items@.subrange(0, i as int), out@),
        decreases items@.len() - i,
    {
        match decode_track(&items[i]) {
            Some(t) => {
                out.push(t);
                proof {
                    let s = items@.subrange(0, i + 1);
                    assert forall|k: int| 0 <= k < s.len() implies track_of(#[trigger] s[k])
                        == Some(out@[k]) by {
                        if k < i {
                            assert(s[k] == items@.subrange(0, i as int)[k]);
                        }
                    }
                }
                i = i + 1;
            },
            None => {
                proof {
                    assert(!all_tracks(items@)) by {
                        assert(track_of(items@[i as int]) is None);
                    }
                }
                return None;
            },
        }
    }
    assert(items@.subrange(0, i as int) =~= items@);
    Some(out)
}

/// The member `key` is an array of tracks.
pub open spec fn tracks_ok(j: Option<Json>) -> bool {
    match j {
        Some(Json::Array(a)) => all_tracks(a@),
        _ => false,
    }
}

/// A player report is readable: `guild_id`, `channel_id`, `paused`, `volume`,
/// `currently_playing` and `queue` all have their shapes.
pub open spec fn player_info_ok(j: Json) -> bool {
    &&& read_id(field(j, "guild_id"@)) is Some
    &&& read_opt_id(field(j, "channel_id"@)) is Some
    &&& read_bool(field(j, "paused"@)) is Some
    &&& read_u8(field(j, "volume"@)) is Some
    &&& read_opt_track(field(j, "currently_playing"@)) is Some
    &&& tracks_ok(field(j, "queue"@))
}

/// `p` is the player report `j` describes.
pub open spec fn is_player_info(j: Json, p: PlayerInfo) -> bool {
    &&& read_id(field(j, "guild_id"@)) == Some(p.guild_id)
    &&& read_opt_id(field(j, "channel_id"@)) == Some(p.channel_id)
    &&& read_bool(field(j, "paused"@)) == Some(p.paused)
    &&& read_u8(field(j, "volume"@)) == Some(p.volume)
    &&& read_opt_track(field(j, "currently_playing"@)) == Some(p.currently_playing)
    &&& field(j, "queue"@) matches Some(Json::Array(a)) && tracks_read(a@, p.queue@)
}

/// Reads a player report.
pub fn decode_player_info(j: &Json) -> (r: Option<PlayerInfo>)
    ensures
        r is Some <==> player_info_ok(*j),
        r is Some ==> is_player_info(*j, r->0),
{
    let queue = match j.get("queue") {
        Some(Json::Array(a)) => match decode_tracks(a) {
            Some(q) => q,
            None => return None,
        },
        _ => return None,
    };
    match (j.id_at("guild_id"), j.opt_id_at("channel_id"), j.bool_at("paused"), u8_at(j, "volume"), opt_track_at(j, "currently_playing")) {
        (Some(guild_id), Some(channel_id), Some(paused), Some(volume), Some(currently_playing)) => {
            Some(PlayerInfo { guild_id, channel_id, paused, volume, currently_playing, queue })
        },
        _ => None,
    }
}

/// `ps` are the player reports `items` describe, one for one.
pub open spec fn players_read(items: Seq<Json>, ps: Seq<PlayerInfo>) -> bool {
    &&& ps.len() == items.len()
    &&& forall|i: int| 0 <= i < items.len() ==> is_player_info(#[trigger] items[i], ps[i])
}

/// Every item is a readable player report.
pub open spec fn all_players(items: Seq<Json>) -> bool {
    forall|i: int| 0 <= i < items.len() ==> player_info_ok(#[trigger] items[i])
}

fn decode_players(items: &Vec<Json>) -> (r: Option<Vec<PlayerInfo>>)
    ensures
        r is Some <==> all_players(items@),
        r is Some ==> players_read(items@, r->0@),
{
    let mut out: Vec<PlayerInfo> = Vec::new();
    let mut i: usize = 0;
    while i < items.len()
        invariant
            i <= items@.len(),
            all_players(items@.subrange(0, i as int)),
            players_read(items@.subrange(0, i as int), out@),
        decreases items@.len() - i,
    {
        match decode_player_info(&items[i]) {
            Some(p) => {
                out.push(p);
                proof {
                    let s = items@.subrange(0, i + 1);
                    assert forall|k: int| 0 <= k < s.len() implies is_player_info(
                        #[trigger] s[k],
                        out@[k],
                    ) by {
                        if k < i {
                            assert(s[k] == items@.subrange(0, i as int)[k]);
                        }
                    }
                }
                i = i + 1;
            },
            None => {
                proof {
                    assert(!all_players(items@)) by {
                        assert(!player_info_ok(items@[i as int]));
                    }
                }
                return None;
            },
        }
    }
    assert(items@.subrange(0, i as int) =~= items@);
    Some(out)
}

/// What `uuid::Uuid::parse_str` yields for a text, as the UUID's big-endian value.
pub uninterp spec fn uuid_parsed(s: Seq<char>) -> Option<u128>;

/// Relies on `uuid::Uuid::parse_str` and `Uuid::as_u128`: the value of the UUID a text
/// denotes, or `None` when the text is not a UUID.
#[verifier::external_body]
fn parse_uuid(s: &str) -> (r: Option<u128>)
    ensures
        r == uuid_parsed(s@),
{
    match uuid::Uuid::parse_str(s) {
        Ok(u) => Some(u.as_u128()),
        Err(_) => None,
    }
}

/// The session a ready message names.
pub open spec fn read_session(j: Option<Json>) -> Option<u128> {
    match read_text(j) {
        Some(t) => uuid_parsed(t@),
        None => None,
    }
}

/// The optional list of player reports of a ready message: absent or `null` is `None`.
pub open spec fn players_ok(j: Option<Json>) -> bool {
    match j {
        None => true,
        Some(Json::Null) => true,
        Some(Json::Array(a)) => all_players(a@),
        _ => false,
    }
}

/// A ready message is readable.
pub open spec fn ready_ok(j: Json) -> bool {
    &&& read_bool(field(j, "resumed"@)) is Some
    &&& read_session(field(j, "session"@)) is Some
    &&& players_ok(field(j, "players"@))
}

/// `r` is the ready message `j` describes.
pub open spec fn is_ready(j: Json, r: Ready) -> bool {
    &&& read_bool(field(j, "resumed"@)) == Some(r.resumed)
    &&& read_session(field(j, "session"@)) == Some(r.session.value)
    &&& match field(j, "players"@) {
        Some(Json::Array(a)) => r.players matches Some(ps) && players_read(a@, ps@),
        _ => r.players is None,
    }
}

/// Reads a ready message.
pub fn decode_ready(j: &Json) -> (r: Option<Ready>)
    ensures
        r is Some <==> ready_ok(*j),
        r is Some ==> is_ready(*j, r->0),
{
    let resumed = match j.bool_at("resumed") {
        Some(b) => b,
        None => return None,
    };
    let session = match j.text_at("session") {
        Some(t) => match parse_uuid(t.as_str()) {
            Some(v) => SessionId { value: v },
            None => return None,
        },
        None => return None,
    };
    let players = match j.get("players") {
        None => None,
        Some(Json::Null) => None,
        Some(Json::Array(a)) => match decode_players(a) {
            Some(ps) => Some(ps),
            None => return None,
        },
        Some(_) => return None,
    };
    Some(Ready { resumed, session, players })
}

/// A message from the server is readable: `{"op", "data"}` with `op` one of `ready`,
/// `forward`, `update_state` and `event`, and `data` of that operation's shape.
pub open spec fn envelope_ok(j: Json) -> bool {
    match (read_text(field(j, "op"@)), field(j, "data"@)) {
        (Some(op), Some(d)) => if op@ == "ready"@ {
            ready_ok(d)
        } else if op@ == "forward"@ {
            read_u64(field(d, "shard"@)) is Some && field(d, "payload"@) is Some
        } else if op@ == "update_state"@ {
            update_state_of(d) is Some
        } else if op@ == "event"@ {
            read_u64(field(d, "guild_id"@)) is Some && (match field(d, "event"@) {
                Some(e) => event_of(e) is Some,
                None => false,
            })
        } else {
            false
        },
        _ => false,
    }
}

/// `e` is the message `j` describes.
pub open spec fn is_envelope(j: Json, e: Envelope) -> bool {
    match field(j, "data"@) {
        Some(d) => match e {
            Envelope::Ready(r) => is_ready(d, r),
            Envelope::Forward(f) => read_u64(field(d, "shard"@)) == Some(f.shard) && field(
                d,
                "payload"@,
            ) == Some(f.payload),
            Envelope::UpdateState(u) => update_state_of(d) == Some(u),
            Envelope::Event { guild_id, event } => read_u64(field(d, "guild_id"@)) == Some(
                guild_id,
            ) && (match field(d, "event"@) {
                Some(v) => event_of(v) == Some(event),
                None => false,
            }),
        },
        None => false,
    }
}

/// The operation name a message of kind `e` carries.
pub open spec fn op_of(e: Envelope) -> Seq<char> {
    match e {
        Envelope::Ready(_) => "ready"@,
        Envelope::Forward(_) => "forward"@,
        Envelope::UpdateState(_) => "update_state"@,
        Envelope::Event { .. } => "event"@,
    }
}

/// Reads a message from the server; `None` when it does not have the protocol's shape.
pub fn decode_envelope(j: Json) -> (r: Option<Envelope>)
    ensures
        r is Some <==> envelope_ok(j),
        r is Some ==> is_envelope(j, r->0),
        r is Some ==> (read_text(field(j, "op"@)) matches Some(op) && op@ == op_of(r->0)),
{
    let op = match j.text_at("op") {
        Some(op) => op,
        None => return None,
    };
    let d = match j.into_field("data") {
        Some(d) => d,
        None => return None,
    };
    if text_is(&op, "ready") {
        match decode_ready(&d) {
            Some(r) => Some(Envelope::Ready(r)),
            None => None,
        }
    } else if text_is(&op, "forward") {
        let shard = match d.u64_at("shard") {
            Some(s) => s,
            None => return None,
        };
        match d.into_field("payload") {
            Some(payload) => Some(Envelope::Forward(Forward { shard, payload })),
            None => None,
        }
    } else if text_is(&op, "update_state") {
        match decode_update_state(&d) {
            Some(u) => Some(Envelope::UpdateState(u)),
            None => None,
        }
    } else if text_is(&op, "event") {
        let guild_id = match d.u64_at("guild_id") {
            Some(g) => g,
            None => return None,
        };
        match d.get("event") {
            Some(e) => match decode_event(e) {
                Some(event) => Some(Envelope::Event { guild_id, event }),
                None => None,
            },
            None => None,
        }
    } else {
        None
    }
}

/// A JSON string holding `s`.
fn text(s: &str) -> (r: Json)
    ensures
        r matches Json::Str(t) && t@ == s@,
{
    Json::Str(String::from_str(s))
}

/// `j` is a forward message carrying `payload` for shard `shard`:
/// `{"op": "forward", "data": {"shard": shard, "payload": payload}}`.
pub open spec fn forward_shaped(j: Json, shard: u64, payload: Json) -> bool {
    &&& read_text(field(j, "op"@)) matches Some(op) && op@ == "forward"@
    &&& field(j, "data"@) matches Some(d) && read_u64(field(d, "shard"@)) == Some(shard) && field(
        d,
        "payload"@,
    ) == Some(payload)
}

/// The forward message for `f`, as the server writes it.
pub fn encode_forward(f: Forward) -> (r: Json)
    ensures
        forward_shaped(r, f.shard, f.payload),
{
    proof {
        reveal_strlit("op");
        reveal_strlit("data");
        reveal_strlit("shard");
        reveal_strlit("payload");
        reveal_strlit("forward");
    }
    let mut data: Vec<(String, Json)> = Vec::new();
    proof {
        assert("payload"@.len() != "shard"@.len());
        assert("data"@.len() != "op"@.len());
    }
    push_member(&mut data, "shard", Json::UInt(f.shard));
    push_member(&mut data, "payload", f.payload);
    let mut m: Vec<(String, Json)> = Vec::new();
    push_member(&mut m, "op", text("forward"));
    push_member(&mut m, "data", Json::Object(data));
    Json::Object(m)
}

/// A forward message reads back as the forward request it was written from: the shard
/// number and the payload come back unchanged.
pub proof fn lemma_forward_round_trip(j: Json, shard: u64, payload: Json)
    requires
        forward_shaped(j, shard, payload),
    ensures
        envelope_ok(j),
        forall|e: Envelope|
            is_envelope(j, e) && op_of(e) == "forward"@ ==> e == Envelope::Forward(
                Forward { shard, payload },
            ),
{
    reveal_strlit("ready");
    reveal_strlit("forward");
    reveal_strlit("update_state");
    reveal_strlit("event");
    reveal_strlit("op");
    reveal_strlit("data");
    reveal_strlit("shard");
    reveal_strlit("payload");
    assert("forward"@.len() != "ready"@.len());
    assert("update_state"@.len() != "ready"@.len());
    assert("event"@[0] != "ready"@[0]);
    assert("update_state"@.len() != "forward"@.len());
    assert("event"@.len() != "forward"@.len());
    assert("event"@.len() != "update_state"@.len());
    assert forall|e: Envelope|
        is_envelope(j, e) && op_of(e) == "forward"@ implies e == Envelope::Forward(
            Forward { shard, payload },
        ) by {
        match e {
            Envelope::Forward(f) => {},
            Envelope::Ready(_) => assert(op_of(e)[0] == 'r'),
            Envelope::UpdateState(_) => assert(op_of(e)[0] == 'u'),
            Envelope::Event { .. } => assert(op_of(e)[0] == 'e'),
        }
    }
}

/// `null` for `None`, the id otherwise.
pub open spec fn id_json(id: Option<u64>) -> Json {
    match id {
        Some(n) => Json::UInt(n),
        None => Json::Null,
    }
}

fn encode_id(id: Option<u64>) -> (r: Json)
    ensures
        r == id_json(id),
{
    match id {
        Some(n) => Json::UInt(n),
        None => Json::Null,
    }
}

/// `null` for `None`, the string otherwise.
pub open spec fn opt_text_json(s: Option<String>) -> Json {
    match s {
        Some(t) => Json::Str(t),
        None => Json::Null,
    }
}

fn encode_opt_text(s: Option<String>) -> (r: Json)
    ensures
        r == opt_text_json(s),
{
    match s {
        Some(t) => Json::Str(t),
        None => Json::Null,
    }
}

/// `j` is the gateway voice-state payload (opcode 4) for `u`:
/// `{"op": 4, "d": {"channel_id", "guild_id", "self_deaf", "self_mute"}}`.
pub open spec fn voice_update_shaped(j: Json, u: VoiceUpdate) -> bool {
    &&& read_u64(field(j, "op"@)) == Some(4u64)
    &&& field(j, "d"@) matches Some(d) && {
        &&& field(d, "channel_id"@) == Some(id_json(u.channel_id))
        &&& field(d, "guild_id"@) == Some(Json::UInt(u.guild_id))
        &&& field(d, "self_deaf"@) == Some(Json::Bool(u.self_deaf))
        &&& field(d, "self_mute"@) == Some(Json::Bool(u.self_mute))
    }
}

impl VoiceUpdate {
    /// The gateway payload that carries this update.
    pub fn to_json(&self) -> (r: Json)
        ensures
            voice_update_shaped(r, *self),
    {
        proof {
            reveal_strlit("op");
            reveal_strlit("d");
            reveal_strlit("channel_id");
            reveal_strlit("guild_id");
            reveal_strlit("self_deaf");
            reveal_strlit("self_mute");
            assert("guild_id"@.len() != "channel_id"@.len());
            assert("self_deaf"@.len() != "channel_id"@.len());
            assert("self_mute"@.len() != "channel_id"@.len());
            assert("self_deaf"@.len() != "guild_id"@.len());
            assert("self_mute"@.len() != "guild_id"@.len());
            assert("self_mute"@[5] != "self_deaf"@[5]);
            assert("d"@.len() != "op"@.len());
        }
        let mut d: Vec<(String, Json)> = Vec::new();
        push_member(&mut d, "channel_id", encode_id(self.channel_id));
        push_member(&mut d, "guild_id", Json::UInt(self.guild_id));
        push_member(&mut d, "self_deaf", Json::Bool(self.self_deaf));
        push_member(&mut d, "self_mute", Json::Bool(self.self_mute));
        let mut m: Vec<(String, Json)> = Vec::new();
        push_member(&mut m, "op", Json::UInt(4));
        push_member(&mut m, "d", Json::Object(d));
        Json::Object(m)
    }
}

/// `j` is the body that hands `info` to the server:
/// `{"channel_id", "endpoint", "session_id", "token"}`.
pub open spec fn connection_info_shaped(j: Json, info: ConnectionInfo) -> bool {
    &&& field(j, "channel_id"@) == Some(id_json(info.channel_id))
    &&& field(j, "endpoint"@) == Some(Json::Str(info.endpoint))
    &&& field(j, "session_id"@) == Some(Json::Str(info.session_id))
    &&& field(j, "token"@) == Some(Json::Str(info.token))
}

impl ConnectionInfo {
    /// The request body that carries this information.
    pub fn to_json(self) -> (r: Json)
        ensures
            connection_info_shaped(r, self),
    {
        proof {
            reveal_strlit("channel_id");
            reveal_strlit("endpoint");
            reveal_strlit("session_id");
            reveal_strlit("token");
            assert("endpoint"@.len() != "channel_id"@.len());
            assert("session_id"@[0] != "channel_id"@[0]);
            assert("token"@.len() != "channel_id"@.len());
            assert("session_id"@.len() != "endpoint"@.len());
            assert("token"@.len() != "endpoint"@.len());
            assert("token"@.len() != "session_id"@.len());
        }
        let mut m: Vec<(String, Json)> = Vec::new();
        push_member(&mut m, "channel_id", encode_id(self.channel_id));
        push_member(&mut m, "endpoint", Json::Str(self.endpoint));
        push_member(&mut m, "session_id", Json::Str(self.session_id));
        push_member(&mut m, "token", Json::Str(self.token));
        Json::Object(m)
    }
}

/// `j` is `t` as the library writes a track: its text members as strings or `null`, and its
/// duration as `{"secs", "nanos"}` or `null`.
pub open spec fn track_shaped(j: Json, t: Track) -> bool {
    &&& field(j, "track"@) == Some(opt_text_json(t.track))
    &&& field(j, "artist"@) == Some(opt_text_json(t.artist))
    &&& field(j, "album"@) == Some(opt_text_json(t.album))
    &&& field(j, "channel"@) == Some(opt_text_json(t.channel))
    &&& field(j, "source_url"@) == Some(opt_text_json(t.source_url))
    &&& field(j, "title"@) == Some(opt_text_json(t.title))
    &&& field(j, "thumbnail"@) == Some(opt_text_json(t.thumbnail))
    &&& match t.duration {
        None => field(j, "duration"@) == Some(Json::Null),
        Some(ms) => field(j, "duration"@) matches Some(dj) && read_u64(field(dj, "secs"@)) == Some(
            (ms / 1000) as u64,
        ) && read_u64(field(dj, "nanos"@)) == Some(((ms % 1000) * 1000000) as u64),
    }
}

impl Track {
    /// The track as the library writes it.
    pub fn to_json(self) -> (r: Json)
        ensures
            track_shaped(r, self),
    {
        proof {
            reveal_strlit("track");
            reveal_strlit("artist");
            reveal_strlit("album");
            reveal_strlit("channel");
            reveal_strlit("duration");
            reveal_strlit("source_url");
            reveal_strlit("title");
            reveal_strlit("thumbnail");
            reveal_strlit("secs");
            reveal_strlit("nanos");
            assert("artist"@.len() != "track"@.len());
            assert("album"@[0] != "track"@[0]);
            assert("channel"@.len() != "track"@.len());
            assert("duration"@.len() != "track"@.len());
            assert("source_url"@.len() != "track"@.len());
            assert("title"@[1] != "track"@[1]);
            assert("thumbnail"@.len() != "track"@.len());
            assert("album"@.len() != "artist"@.len());
            assert("channel"@.len() != "artist"@.len());
            assert("duration"@.len() != "artist"@.len());
            assert("source_url"@.len() != "artist"@.len());
            assert("title"@.len() != "artist"@.len());
            assert("thumbnail"@.len() != "artist"@.len());
            assert("channel"@.len() != "album"@.len());
            assert("duration"@.len() != "album"@.len());
            assert("source_url"@.len() != "album"@.len());
            assert("title"@[0] != "album"@[0]);
            assert("thumbnail"@.len() != "album"@.len());
            assert("duration"@.len() != "channel"@.len());
            assert("source_url"@.len() != "channel"@.len());
            assert("title"@.len() != "channel"@.len());
            assert("thumbnail"@.len() != "channel"@.len());
            assert("source_url"@.len() != "duration"@.len());
            assert("title"@.len() != "duration"@.len());
            assert("thumbnail"@.len() != "duration"@.len());
            assert("title"@.len() != "source_url"@.len());
            assert("thumbnail"@.len() != "source_url"@.len());
            assert("thumbnail"@.len() != "title"@.len());
            assert("nanos"@.len() != "secs"@.len());
        }
        let duration = match self.duration {
            Some(ms) => {
                let mut d: Vec<(String, Json)> = Vec::new();
                push_member(&mut d, "secs", Json::UInt(ms / 1000));
                push_member(&mut d, "nanos", Json::UInt((ms % 1000) * 1000000));
                Json::Object(d)
            },
            None => Json::Null,
        };
        let mut m: Vec<(String, Json)> = Vec::new();
        push_member(&mut m, "track", encode_opt_text(self.track));
        push_member(&mut m, "artist", encode_opt_text(self.artist));
        push_member(&mut m, "album", encode_opt_text(self.album));
        push_member(&mut m, "channel", encode_opt_text(self.channel));
        push_member(&mut m, "duration", duration);
        push_member(&mut m, "source_url", encode_opt_text(self.source_url));
        push_member(&mut m, "title", encode_opt_text(self.title));
        push_member(&mut m, "thumbnail", encode_opt_text(self.thumbnail));
        Json::Object(m)
    }
}

/// The member `key` of `j` is the string `t`.
pub open spec fn text_member(j: Json, key: Seq<char>, t: Seq<char>) -> bool {
    read_text(field(j, key)) matches Some(v) && v@ == t
}

/// `j` is the `source` of a play request for `p`: `{"type", "data"}` with type `link`,
/// `http` or `bytes`. A link's data is `{"link"}`; an address's data is `{"link"}` with
/// `"track"` when a track describes it and `"force_ytdlp": true` when the downloader is
/// forced; bytes are an array of numbers.
pub open spec fn play_payload_shaped(j: Json, p: PlayPayload) -> bool {
    match p {
        PlayPayload::Link { link } => {
            &&& text_member(j, "type"@, "link"@)
            &&& field(j, "data"@) matches Some(d) && field(d, "link"@) == Some(Json::Str(link))
        },
        PlayPayload::Http { link, track, force_ytdlp } => {
            &&& text_member(j, "type"@, "http"@)
            &&& field(j, "data"@) matches Some(d) && {
                &&& field(d, "link"@) == Some(Json::Str(link))
                &&& match track {
                    Some(t) => field(d, "track"@) matches Some(tj) && track_shaped(tj, t),
                    None => field(d, "track"@) is None,
                }
                &&& field(d, "force_ytdlp"@) == if force_ytdlp {
                    Some(Json::Bool(true))
                } else {
                    None
                }
            }
        },
        PlayPayload::Bytes { data } => {
            &&& text_member(j, "type"@, "bytes"@)
            &&& field(j, "data"@) matches Some(Json::Array(a)) && {
                &&& a@.len() == data@.len()
                &&& forall|i: int| 0 <= i < a@.len() ==> #[trigger] a@[i] == Json::UInt(data@[i] as u64)
            }
        },
    }
}

fn encode_bytes(data: &Vec<u8>) -> (r: Vec<Json>)
    ensures
        r@.len() == data@.len(),
        forall|i: int| 0 <= i < r@.len() ==> #[trigger] r@[i] == Json::UInt(data@[i] as u64),
{
    let mut out: Vec<Json> = Vec::new();
    let mut i: usize = 0;
    while i < data.len()
        invariant
            i <= data@.len(),
            out@.len() == i,
            forall|k: int| 0 <= k < i ==> #[trigger] out@[k] == Json::UInt(data@[k] as u64),
        decreases data@.len() - i,
    {
        out.push(Json::UInt(data[i] as u64));
        i = i + 1;
    }
    out
}

impl PlayPayload {
    /// The `source` part of a play request.
    pub fn to_json(self) -> (r: Json)
        ensures
            play_payload_shaped(r, self),
    {
        proof {
            reveal_strlit("type");
            reveal_strlit("data");
            reveal_strlit("link");
            reveal_strlit("track");
            reveal_strlit("force_ytdlp");
            assert("data"@[0] != "type"@[0]);
            assert("track"@.len() != "link"@.len());
            assert("force_ytdlp"@.len() != "link"@.len());
            assert("force_ytdlp"@.len() != "track"@.len());
        }
        let mut m: Vec<(String, Json)> = Vec::new();
        match self {
            PlayPayload::Link { link } => {
                let mut d: Vec<(String, Json)> = Vec::new();
                push_member(&mut d, "link", Json::Str(link));
                push_member(&mut m, "type", text("link"));
                push_member(&mut m, "data", Json::Object(d));
            },
            PlayPayload::Http { link, track, force_ytdlp } => {
                let mut d: Vec<(String, Json)> = Vec::new();
                push_member(&mut d, "link", Json::Str(link));
                match track {
                    Some(t) => push_member(&mut d, "track", t.to_json()),
                    None => {},
                }
                if force_ytdlp {
                    push_member(&mut d, "force_ytdlp", Json::Bool(true));
                }
                push_member(&mut m, "type", text("http"));
                push_member(&mut m, "data", Json::Object(d));
            },
            PlayPayload::Bytes { data } => {
                let a = encode_bytes(&data);
                push_member(&mut m, "type", text("bytes"));
                push_member(&mut m, "data", Json::Array(a));
            },
        }
        Json::Object(m)
    }
}

/// `j` is the body of a play request: `{"force_play": force, "source": ...}`.
pub open spec fn play_body_shaped(j: Json, force: bool, p: PlayPayload) -> bool {
    &&& field(j, "force_play"@) == Some(Json::Bool(force))
    &&& field(j, "source"@) matches Some(src) && play_payload_shaped(src, p)
}

/// The body of a request that plays `source`, at once when `force` holds.
pub fn play_body(force: bool, source: PlayPayload) -> (r: Json)
    ensures
        play_body_shaped(r, force, source),
{
    proof {
        reveal_strlit("force_play");
        reveal_strlit("source");
        assert("source"@.len() != "force_play"@.len());
    }
    let mut m: Vec<(String, Json)> = Vec::new();
    push_member(&mut m, "force_play", Json::Bool(force));
    push_member(&mut m, "source", source.to_json());
    Json::Object(m)
}

} // verus!
