use nightingale::connection::ConnectionInfo;
use nightingale::json::Json;
use nightingale::model::{Envelope, Event, Forward, Track, UpdateState};
use nightingale::player::VoiceUpdate;
use nightingale::source::PlayPayload;
use nightingale::wire::{
    decode_envelope, decode_event, decode_player_info, decode_track, encode_forward, play_body,
};

fn s(v: &str) -> Json {
    Json::Str(String::from(v))
}

fn obj(members: Vec<(&str, Json)>) -> Json {
    Json::Object(members.into_iter().map(|(k, v)| (String::from(k), v)).collect())
}

fn get<'a>(j: &'a Json, key: &str) -> &'a Json {
    j.get(key).expect("member present")
}

fn track_json(title: &str) -> Json {
    obj(vec![("title", s(title)), ("duration", Json::UInt(1500)), ("artist", Json::Null)])
}

#[test]
fn forward_round_trip_keeps_shard_and_payload() {
    let payload = obj(vec![("op", Json::UInt(4)), ("d", obj(vec![("guild_id", s("123"))]))]);
    let j = encode_forward(Forward { shard: 7, payload });
    match decode_envelope(j) {
        Some(Envelope::Forward(f)) => {
            assert_eq!(f.shard, 7);
            match f.payload {
                Json::Object(m) => {
                    assert_eq!(m.len(), 2);
                    assert_eq!(m[0].0, "op");
                    assert!(matches!(m[0].1, Json::UInt(4)));
                    assert_eq!(m[1].0, "d");
                    assert!(matches!(get(&m[1].1, "guild_id"), Json::Str(g) if g == "123"));
                }
                _ => panic!("payload changed"),
            }
        }
        _ => panic!("not a forward"),
    }
}

#[test]
fn forward_needs_shard_and_payload() {
    let j = obj(vec![("op", s("forward")), ("data", obj(vec![("shard", Json::UInt(1))]))]);
    assert!(decode_envelope(j).is_none());
    let j = obj(vec![("op", s("forward")), ("data", obj(vec![("payload", Json::Null)]))]);
    assert!(decode_envelope(j).is_none());
}

#[test]
fn decode_track_reads_optional_members() {
    let t = decode_track(&track_json("A")).unwrap();
    assert_eq!(t.title.as_deref(), Some("A"));
    assert_eq!(t.duration, Some(1500));
    assert_eq!(t.artist, None);
    assert_eq!(t.album, None);
    assert!(decode_track(&obj(vec![("title", Json::UInt(3))])).is_none());
    assert!(decode_track(&s("A")).is_none());
}

#[test]
fn decode_track_events() {
    let start = obj(vec![("type", s("track_start")), ("data", track_json("A"))]);
    assert!(matches!(decode_event(&start), Some(Event::TrackStart(t)) if t.title.as_deref() == Some("A")));
    let end = obj(vec![
        ("type", s("track_end")),
        ("data", obj(vec![("stopped", Json::Bool(true)), ("track", track_json("B"))])),
    ]);
    assert!(matches!(decode_event(&end), Some(Event::TrackEnd(e)) if e.stopped));
    let err = obj(vec![
        ("type", s("track_errored")),
        ("data", obj(vec![("error", s("boom")), ("track", track_json("C"))])),
    ]);
    assert!(matches!(decode_event(&err), Some(Event::TrackErrored(e)) if e.error == "boom"));
    let unknown = obj(vec![("type", s("track_paused")), ("data", track_json("A"))]);
    assert!(decode_event(&unknown).is_none());
}

#[test]
fn decode_event_envelope() {
    let j = obj(vec![
        ("op", s("event")),
        (
            "data",
            obj(vec![
                ("guild_id", Json::UInt(42)),
                ("event", obj(vec![("type", s("track_start")), ("data", track_json("A"))])),
            ]),
        ),
    ]);
    assert!(matches!(decode_envelope(j), Some(Envelope::Event { guild_id: 42, event: Event::TrackStart(_) })));
}

#[test]
fn decode_update_state_envelope() {
    let j = obj(vec![
        ("op", s("update_state")),
        (
            "data",
            obj(vec![
                ("type", s("connect_gateway")),
                (
                    "data",
                    obj(vec![
                        ("channel_id", Json::UInt(5)),
                        ("guild_id", Json::UInt(6)),
                        ("session_id", s("sess")),
                        ("server", s("srv")),
                        ("ssrc", Json::UInt(99)),
                    ]),
                ),
            ]),
        ),
    ]);
    match decode_envelope(j) {
        Some(Envelope::UpdateState(UpdateState::ConnectGateway(c))) => {
            assert_eq!(c.channel_id, Some(5));
            assert_eq!(c.guild_id, 6);
            assert_eq!(c.ssrc, 99);
            assert_eq!(c.server, "srv");
        }
        _ => panic!("not a connect"),
    }
    let zero_guild = obj(vec![
        ("type", s("disconnect_gateway")),
        ("data", obj(vec![("guild_id", Json::UInt(0)), ("session_id", s("x"))])),
    ]);
    assert!(decode_envelope(obj(vec![("op", s("update_state")), ("data", zero_guild)])).is_none());
}

#[test]
fn decode_ready_envelope() {
    let player = obj(vec![
        ("guild_id", Json::UInt(3)),
        ("channel_id", Json::Null),
        ("paused", Json::Bool(true)),
        ("volume", Json::UInt(80)),
        ("currently_playing", track_json("Now")),
        ("queue", Json::Array(vec![track_json("A"), track_json("B")])),
    ]);
    let info = decode_player_info(&player).unwrap();
    assert_eq!(info.volume, 80);
    assert_eq!(info.queue.len(), 2);
    let j = obj(vec![
        ("op", s("ready")),
        (
            "data",
            obj(vec![
                ("resumed", Json::Bool(true)),
                ("session", s("01234567-89ab-cdef-0123-456789abcdef")),
                ("players", Json::Array(vec![player])),
            ]),
        ),
    ]);
    match decode_envelope(j) {
        Some(Envelope::Ready(r)) => {
            assert!(r.resumed);
            assert_eq!(r.session.value, 0x0123456789abcdef0123456789abcdef);
            assert_eq!(r.players.unwrap().len(), 1);
        }
        _ => panic!("not ready"),
    }
    let bad = obj(vec![
        ("op", s("ready")),
        ("data", obj(vec![("resumed", Json::Bool(false)), ("session", s("not-a-uuid"))])),
    ]);
    assert!(decode_envelope(bad).is_none());
}

#[test]
fn volume_out_of_range_is_rejected() {
    let player = obj(vec![
        ("guild_id", Json::UInt(3)),
        ("paused", Json::Bool(false)),
        ("volume", Json::UInt(300)),
        ("queue", Json::Array(vec![])),
    ]);
    assert!(decode_player_info(&player).is_none());
}

#[test]
fn unknown_op_is_rejected() {
    assert!(decode_envelope(obj(vec![("op", s("hello")), ("data", Json::Null)])).is_none());
    assert!(decode_envelope(obj(vec![("data", Json::Null)])).is_none());
    assert!(decode_envelope(Json::Null).is_none());
}

#[test]
fn voice_update_payload() {
    let u = VoiceUpdate { guild_id: 9, channel_id: None, self_deaf: true, self_mute: false };
    let j = u.to_json();
    assert!(matches!(get(&j, "op"), Json::UInt(4)));
    let d = get(&j, "d");
    assert!(matches!(get(d, "channel_id"), Json::Null));
    assert!(matches!(get(d, "guild_id"), Json::UInt(9)));
    assert!(matches!(get(d, "self_deaf"), Json::Bool(true)));
    assert!(matches!(get(d, "self_mute"), Json::Bool(false)));
}

#[test]
fn connection_info_body() {
    let j = ConnectionInfo {
        channel_id: Some(55),
        endpoint: String::from("e"),
        session_id: String::from("s1"),
        token: String::from("t"),
    }
    .to_json();
    assert!(matches!(get(&j, "channel_id"), Json::UInt(55)));
    assert!(matches!(get(&j, "endpoint"), Json::Str(v) if v == "e"));
    assert!(matches!(get(&j, "session_id"), Json::Str(v) if v == "s1"));
    assert!(matches!(get(&j, "token"), Json::Str(v) if v == "t"));
}

#[test]
fn play_body_for_each_source() {
    let j = play_body(false, PlayPayload::Link { link: String::from("l") });
    assert!(matches!(get(&j, "force_play"), Json::Bool(false)));
    let src = get(&j, "source");
    assert!(matches!(get(src, "type"), Json::Str(t) if t == "link"));
    assert!(matches!(get(get(src, "data"), "link"), Json::Str(t) if t == "l"));

    let j = play_body(
        true,
        PlayPayload::Http { link: String::from("h"), track: None, force_ytdlp: true },
    );
    let data = get(get(&j, "source"), "data");
    assert!(matches!(get(data, "force_ytdlp"), Json::Bool(true)));
    assert!(data.get("track").is_none());

    let t = Track {
        track: None,
        artist: None,
        album: None,
        channel: None,
        duration: Some(61500),
        source_url: None,
        title: Some(String::from("T")),
        thumbnail: None,
    };
    let j = PlayPayload::Http { link: String::from("h"), track: Some(t), force_ytdlp: false }.to_json();
    let data = get(&j, "data");
    assert!(data.get("force_ytdlp").is_none());
    let tj = get(data, "track");
    assert!(matches!(get(tj, "title"), Json::Str(v) if v == "T"));
    assert!(matches!(get(tj, "artist"), Json::Null));
    assert!(matches!(get(get(tj, "duration"), "secs"), Json::UInt(61)));
    assert!(matches!(get(get(tj, "duration"), "nanos"), Json::UInt(500000000)));

    let j = PlayPayload::Bytes { data: vec![1, 255] }.to_json();
    assert!(matches!(get(&j, "type"), Json::Str(t) if t == "bytes"));
    match get(&j, "data") {
        Json::Array(a) => {
            assert_eq!(a.len(), 2);
            assert!(matches!(a[1], Json::UInt(255)));
        }
        _ => panic!("bytes are an array"),
    }
}
