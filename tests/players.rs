use nightingale::connection::PartialConnectionInfo;
use nightingale::model::Track;
use nightingale::player::{join_update, Player, PlayerRequest, VoiceUpdate};
use nightingale::manager::PlayerManager;
use nightingale::source::{Bytes, ForceYtDlp, Http, HttpWithTrack, Link, PlayPayload};

fn track(title: &str) -> Track {
    Track {
        track: None,
        artist: None,
        album: None,
        channel: None,
        duration: Some(1000),
        source_url: None,
        title: Some(String::from(title)),
        thumbnail: None,
    }
}

fn titles(p: &Player) -> Vec<String> {
    p.queue().iter().map(|t| t.title.clone().unwrap()).collect()
}

#[test]
fn new_player_defaults() {
    let p = Player::new(5);
    assert_eq!(p.guild(), 5);
    assert!(p.queue().is_empty());
    assert!(p.current().is_none());
    assert!(!p.paused());
    assert_eq!(p.volume(), 100);
    assert!(!p.deaf());
    assert!(!p.mute());
    assert_eq!(p.channel(), None);
    assert!(!p.info().complete());
}

#[test]
fn set_volume_to_current_value_needs_no_call() {
    let mut p = Player::new(5);
    assert_eq!(p.set_volume(100), None);
    assert_eq!(p.set_volume(40), Some(PlayerRequest::SetVolume(40)));
    p.confirm(PlayerRequest::SetVolume(40));
    assert_eq!(p.volume(), 40);
    assert_eq!(p.set_volume(40), None);
}

#[test]
fn pause_twice_then_resume() {
    let mut calls = 0;
    let mut p = Player::new(5);
    for _ in 0..2 {
        if let Some(req) = p.pause() {
            calls += 1;
            p.confirm(req);
        }
    }
    assert_eq!(calls, 1);
    assert!(p.paused());
    if let Some(req) = p.resume() {
        calls += 1;
        p.confirm(req);
    }
    assert_eq!(calls, 2);
    assert!(!p.paused());
    assert_eq!(p.resume(), None);
}

#[test]
fn failed_request_leaves_state_alone() {
    let p = Player::new(5);
    // the server refused: confirm is never called
    assert_eq!(p.pause(), Some(PlayerRequest::Pause));
    assert!(!p.paused());
    assert_eq!(p.pause(), Some(PlayerRequest::Pause));
}

#[test]
fn enqueue_two_tracks_in_order() {
    let mut p = Player::new(5);
    p.enqueue(track("A"));
    p.enqueue(track("B"));
    assert_eq!(titles(&p), vec!["A", "B"]);
    assert!(p.current().is_none());
}

#[test]
fn force_play_goes_first() {
    let mut p = Player::new(5);
    p.enqueue(track("A"));
    p.force_play(track("B"));
    assert_eq!(titles(&p), vec!["B", "A"]);
}

#[test]
fn voice_payloads() {
    let mut p = Player::new(5);
    assert_eq!(
        p.connect_to(55),
        VoiceUpdate { guild_id: 5, channel_id: Some(55), self_deaf: false, self_mute: false }
    );
    assert_eq!(
        p.set_deaf(true),
        VoiceUpdate { guild_id: 5, channel_id: None, self_deaf: true, self_mute: false }
    );
    assert_eq!(
        p.set_mute(true),
        VoiceUpdate { guild_id: 5, channel_id: None, self_deaf: true, self_mute: true }
    );
    assert_eq!(
        p.disconnect(),
        VoiceUpdate { guild_id: 5, channel_id: None, self_deaf: true, self_mute: true }
    );
    assert_eq!(
        join_update(7, 8),
        VoiceUpdate { guild_id: 7, channel_id: Some(8), self_deaf: false, self_mute: false }
    );
}

#[test]
fn partial_info_completion() {
    let mut i = PartialConnectionInfo::new();
    assert!(!i.complete());
    i.endpoint = Some(String::from("e"));
    i.token = Some(String::from("t"));
    assert!(!i.complete());
    i.session_id = Some(String::from("s"));
    assert!(i.complete());
    let info = i.into_info();
    assert_eq!(info.channel_id, None);
    assert_eq!(info.endpoint, "e");
    assert_eq!(info.session_id, "s");
    assert_eq!(info.token, "t");
}

#[test]
fn voice_state_then_server_syncs_once() {
    let mut r = PlayerManager::new();
    let first = r.on_voice_state(42, Some(55), String::from("s1"));
    assert!(first.is_none());
    assert!(r.contains(42));
    let second = r.on_voice_server(42, Some(String::from("e")), String::from("t"));
    let info = second.expect("sync fires after the second fragment");
    assert_eq!(info.channel_id, Some(55));
    assert_eq!(info.session_id, "s1");
    assert_eq!(info.endpoint, "e");
    assert_eq!(info.token, "t");
    let left = r.get(42).unwrap().info();
    assert!(left.channel_id.is_none() && left.endpoint.is_none());
    assert!(left.session_id.is_none() && left.token.is_none());
    // a new handshake starts from scratch
    assert!(r.on_voice_server(42, Some(String::from("e2")), String::from("t2")).is_none());
}

#[test]
fn voice_server_then_state_syncs_once() {
    let mut r = PlayerManager::new();
    assert!(r.on_voice_server(9, Some(String::from("e")), String::from("t")).is_none());
    let info = r.on_voice_state(9, None, String::from("s")).unwrap();
    assert_eq!(info.channel_id, None);
    assert_eq!(info.session_id, "s");
}

#[test]
fn missing_endpoint_never_syncs() {
    let mut r = PlayerManager::new();
    assert!(r.on_voice_server(9, None, String::from("t")).is_none());
    assert!(r.on_voice_state(9, Some(3), String::from("s")).is_none());
    assert!(!r.get(9).unwrap().info().complete());
}

#[test]
fn get_or_insert_creates_one_player() {
    let mut r = PlayerManager::new();
    assert!(r.get_or_insert(11));
    assert!(r.enqueue(11, track("A")));
    assert!(!r.get_or_insert(11));
    assert_eq!(r.len(), 1);
    assert_eq!(titles(r.get(11).unwrap()), vec!["A"]);
}

#[test]
fn registry_commands_and_leave() {
    let mut r = PlayerManager::new();
    assert!(!r.confirm(3, PlayerRequest::Pause));
    assert!(r.set_deaf(3, true).is_none());
    r.get_or_insert(3);
    assert!(r.confirm(3, PlayerRequest::Pause));
    assert!(r.get(3).unwrap().paused());
    assert!(r.force_play(3, track("X")));
    assert_eq!(
        r.set_mute(3, true),
        Some(VoiceUpdate { guild_id: 3, channel_id: None, self_deaf: false, self_mute: true })
    );
    assert!(r.remove(3).is_some());
    assert!(r.remove(3).is_none());
    assert!(!r.contains(3));
}

#[test]
fn play_sources() {
    assert!(matches!(Link(String::from("l")).value_for(), PlayPayload::Link { link } if link == "l"));
    assert!(matches!(
        Http(String::from("h")).value_for(),
        PlayPayload::Http { link, track: None, force_ytdlp: false } if link == "h"
    ));
    assert!(matches!(
        HttpWithTrack(String::from("h"), track("T")).value_for(),
        PlayPayload::Http { track: Some(_), force_ytdlp: false, .. }
    ));
    assert!(matches!(
        ForceYtDlp(String::from("f")).value_for(),
        PlayPayload::Http { track: None, force_ytdlp: true, .. }
    ));
    assert!(matches!(Bytes(vec![1, 2]).value_for(), PlayPayload::Bytes { data } if data == vec![1, 2]));
}
