//! Per-guild player state and the decisions of its commands.
//!
//! A command that needs the server is split in two: the player first says which request, if
//! any, must be sent, and its state changes only once the server has accepted that request.

use crate::connection::{ConnectionInfo, PartialConnectionInfo};
use crate::model::Track;
use vstd::prelude::*;

verus! {

/// A player control request sent to the server.
#[derive(Clone, Copy, Debug, PartialEq, Eq, Structural)]
pub enum PlayerRequest {
    /// Pause playback.
    Pause,
    /// Resume playback.
    Resume,
    /// Set the volume.
    SetVolume(u8),
}

/// A voice-state payload for the gateway: join `channel_id`, or leave voice when it is `None`.
#[derive(Clone, Copy, Debug, PartialEq, Eq, Structural)]
pub struct VoiceUpdate {
    /// Guild the payload is about.
    pub guild_id: u64,
    /// Channel to join, or `None` to leave.
    pub channel_id: Option<u64>,
    /// Whether the bot deafens itself.
    pub self_deaf: bool,
    /// Whether the bot mutes itself.
    pub self_mute: bool,
}

/// The payload that joins `channel` of `guild`, neither deafened nor muted.
pub fn join_update(guild: u64, channel: u64) -> (r: VoiceUpdate)
    ensures
        r == (VoiceUpdate {
            guild_id: guild,
            channel_id: Some(channel),
            self_deaf: false,
            self_mute: false,
        }),
{
    VoiceUpdate { guild_id: guild, channel_id: Some(channel), self_deaf: false, self_mute: false }
}

/// The abstract state of a player.
pub ghost struct PlayerView {
    pub guild: u64,
    pub queue: Seq<Track>,
    pub current: Option<Track>,
    pub paused: bool,
    pub volume: u8,
    pub deaf: bool,
    pub mute: bool,
    pub channel: Option<u64>,
    pub info: PartialConnectionInfo,
}

/// The state of a player that was just created for `guild`.
pub open spec fn fresh_player(guild: u64) -> PlayerView {
    PlayerView {
        guild,
        queue: Seq::empty(),
        current: None,
        paused: false,
        volume: 100,
        deaf: false,
        mute: false,
        channel: None,
        info: PartialConnectionInfo {
            channel_id: None,
            endpoint: None,
            session_id: None,
            token: None,
        },
    }
}

/// Whether `req` needs a round trip to the server: pausing a paused player, resuming a
/// playing one, or setting the volume it already has, does not.
pub open spec fn needs_server(p: PlayerView, req: PlayerRequest) -> bool {
    match req {
        PlayerRequest::Pause => !p.paused,
        PlayerRequest::Resume => p.paused,
        PlayerRequest::SetVolume(v) => p.volume != v,
    }
}

/// The player once the server has accepted `req`.
pub open spec fn accepted(p: PlayerView, req: PlayerRequest) -> PlayerView {
    match req {
        PlayerRequest::Pause => PlayerView { paused: true, ..p },
        PlayerRequest::Resume => PlayerView { paused: false, ..p },
        PlayerRequest::SetVolume(v) => PlayerView { volume: v, ..p },
    }
}

/// The request a command sends, if any.
pub open spec fn request_for(p: PlayerView, req: PlayerRequest) -> Option<PlayerRequest> {
    if needs_server(p, req) {
        Some(req)
    } else {
        None
    }
}

/// The player after the commands `reqs`, the server accepting every request sent.
pub open spec fn after_commands(p: PlayerView, reqs: Seq<PlayerRequest>) -> PlayerView
    decreases reqs.len(),
{
    if reqs.len() == 0 {
        p
    } else {
        let q = if needs_server(p, reqs[0]) {
            accepted(p, reqs[0])
        } else {
            p
        };
        after_commands(q, reqs.drop_first())
    }
}

/// How many requests the commands `reqs` send, the server accepting every one.
pub open spec fn server_calls(p: PlayerView, reqs: Seq<PlayerRequest>) -> nat
    decreases reqs.len(),
{
    if reqs.len() == 0 {
        0
    } else if needs_server(p, reqs[0]) {
        1 + server_calls(accepted(p, reqs[0]), reqs.drop_first())
    } else {
        server_calls(p, reqs.drop_first())
    }
}

/// The accumulator after a voice-state fragment.
pub open spec fn with_voice_state(
    info: PartialConnectionInfo,
    channel_id: Option<u64>,
    session_id: String,
) -> PartialConnectionInfo {
    PartialConnectionInfo { channel_id, session_id: Some(session_id), ..info }
}

/// The accumulator after a voice-server fragment.
pub open spec fn with_voice_server(
    info: PartialConnectionInfo,
    endpoint: Option<String>,
    token: String,
) -> PartialConnectionInfo {
    PartialConnectionInfo { endpoint, token: Some(token), ..info }
}

/// What a sync on the accumulator `m` does: when `m` is complete, `r` holds its fields and
/// `after` is empty; otherwise nothing is sent and `m` is kept.
pub open spec fn synced(
    m: PartialConnectionInfo,
    r: Option<ConnectionInfo>,
    after: PartialConnectionInfo,
) -> bool {
    &&& r is Some <==> m.is_complete()
    &&& r is Some ==> {
        let i = r->0;
        &&& i.channel_id == m.channel_id
        &&& Some(i.endpoint) == m.endpoint
        &&& Some(i.session_id) == m.session_id
        &&& Some(i.token) == m.token
        &&& after.is_empty()
    }
    &&& r is None ==> after == m
}

/// The playback state of one guild.
pub struct Player {
    guild: u64,
    queue: Vec<Track>,
    current: Option<Track>,
    paused: bool,
    volume: u8,
    deaf: bool,
    mute: bool,
    channel: Option<u64>,
    info: PartialConnectionInfo,
}

impl View for Player {
    type V = PlayerView;

    closed spec fn view(&self) -> PlayerView {
        PlayerView {
            guild: self.guild,
            queue: self.queue@,
            current: self.current,
            paused: self.paused,
            volume: self.volume,
            deaf: self.deaf,
            mute: self.mute,
            channel: self.channel,
            info: self.info,
        }
    }
}

impl Player {
    /// The guild id is a real (non-zero) id.
    pub open spec fn wf(&self) -> bool {
        self@.guild != 0
    }

    /// A player for `guild`: empty queue, nothing playing, not paused, volume 100.
    pub fn new(guild: u64) -> (r: Self)
        requires
            guild != 0,
        ensures
            r@ == fresh_player(guild),
            r.wf(),
    {
        Player {
            guild,
            queue: Vec::new(),
            current: None,
            paused: false,
            volume: 100,
            deaf: false,
            mute: false,
            channel: None,
            info: PartialConnectionInfo::new(),
        }
    }

    /// The guild of the player.
    pub fn guild(&self) -> (r: u64)
        ensures
            r == self@.guild,
    {
        self.guild
    }

    /// The track being played, if any.
    pub fn current(&self) -> (r: &Option<Track>)
        ensures
            *r == self@.current,
    {
        &self.current
    }

    /// The tracks waiting to be played, in order.
    pub fn queue(&self) -> (r: &Vec<Track>)
        ensures
            r@ == self@.queue,
    {
        &self.queue
    }

    /// Whether playback is paused.
    pub fn paused(&self) -> (r: bool)
        ensures
            r == self@.paused,
    {
        self.paused
    }

    /// The volume.
    pub fn volume(&self) -> (r: u8)
        ensures
            r == self@.volume,
    {
        self.volume
    }

    /// Whether the bot deafens itself in this guild.
    pub fn deaf(&self) -> (r: bool)
        ensures
            r == self@.deaf,
    {
        self.deaf
    }

    /// Whether the bot mutes itself in this guild.
    pub fn mute(&self) -> (r: bool)
        ensures
            r == self@.mute,
    {
        self.mute
    }

    /// The voice channel the player's payloads name.
    pub fn channel(&self) -> (r: Option<u64>)
        ensures
            r == self@.channel,
    {
        self.channel
    }

    /// The voice handshake fragments received so far.
    pub fn info(&self) -> (r: &PartialConnectionInfo)
        ensures
            *r == self@.info,
    {
        &self.info
    }

    /// The request that pausing sends; `None` when the player is already paused.
    pub fn pause(&self) -> (r: Option<PlayerRequest>)
        ensures
            r == request_for(self@, PlayerRequest::Pause),
    {
        if self.paused {
            None
        } else {
            Some(PlayerRequest::Pause)
        }
    }

    /// The request that resuming sends; `None` when the player is not paused.
    pub fn resume(&self) -> (r: Option<PlayerRequest>)
        ensures
            r == request_for(self@, PlayerRequest::Resume),
    {
        if self.paused {
            Some(PlayerRequest::Resume)
        } else {
            None
        }
    }

    /// The request that setting the volume to `volume` sends; `None` when the player already
    /// has that volume.
    pub fn set_volume(&self, volume: u8) -> (r: Option<PlayerRequest>)
        ensures
            r == request_for(self@, PlayerRequest::SetVolume(volume)),
            r is None <==> self@.volume == volume,
    {
        if self.volume == volume {
            None
        } else {
            Some(PlayerRequest::SetVolume(volume))
        }
    }

    /// Applies a request the server has accepted.
    pub fn confirm(&mut self, req: PlayerRequest)
        ensures
            final(self)@ == accepted(old(self)@, req),
    {
        match req {
            PlayerRequest::Pause => self.paused = true,
            PlayerRequest::Resume => self.paused = false,
            PlayerRequest::SetVolume(v) => self.volume = v,
        }
    }

    /// Appends a track the server accepted to the end of the queue.
    pub fn enqueue(&mut self, track: Track)
        ensures
            final(self)@ == (PlayerView { queue: old(self)@.queue.push(track), ..old(self)@ }),
    {
        self.queue.push(track);
    }

    /// Puts a track the server accepted to be played at once at the head of the queue.
    pub fn force_play(&mut self, track: Track)
        ensures
            final(self)@ == (PlayerView { queue: seq![track] + old(self)@.queue, ..old(self)@ }),
    {
        self.queue.insert(0, track);
        assert(self.queue@ =~= seq![track] + old(self)@.queue);
    }

    /// The voice-state payload that moves the bot to `channel`, or out of voice for `None`,
    /// keeping its deaf and mute flags.
    pub fn voice_update(&self, channel: Option<u64>) -> (r: VoiceUpdate)
        ensures
            r == (VoiceUpdate {
                guild_id: self@.guild,
                channel_id: channel,
                self_deaf: self@.deaf,
                self_mute: self@.mute,
            }),
    {
        VoiceUpdate {
            guild_id: self.guild,
            channel_id: channel,
            self_deaf: self.deaf,
            self_mute: self.mute,
        }
    }

    /// Sets the deaf flag; returns the payload that announces it.
    pub fn set_deaf(&mut self, deaf: bool) -> (r: VoiceUpdate)
        ensures
            final(self)@ == (PlayerView { deaf, ..old(self)@ }),
            r == (VoiceUpdate {
                guild_id: old(self)@.guild,
                channel_id: old(self)@.channel,
                self_deaf: deaf,
                self_mute: old(self)@.mute,
            }),
    {
        self.deaf = deaf;
        self.voice_update(self.channel)
    }

    /// Sets the mute flag; returns the payload that announces it.
    pub fn set_mute(&mut self, mute: bool) -> (r: VoiceUpdate)
        ensures
            final(self)@ == (PlayerView { mute, ..old(self)@ }),
            r == (VoiceUpdate {
                guild_id: old(self)@.guild,
                channel_id: old(self)@.channel,
                self_deaf: old(self)@.deaf,
                self_mute: mute,
            }),
    {
        self.mute = mute;
        self.voice_update(self.channel)
    }

    /// The payload that joins `channel`.
    pub fn connect_to(&self, channel: u64) -> (r: VoiceUpdate)
        ensures
            r == (VoiceUpdate {
                guild_id: self@.guild,
                channel_id: Some(channel),
                self_deaf: self@.deaf,
                self_mute: self@.mute,
            }),
    {
        self.voice_update(Some(channel))
    }

    /// The payload that leaves voice.
    pub fn disconnect(&self) -> (r: VoiceUpdate)
        ensures
            r == (VoiceUpdate {
                guild_id: self@.guild,
                channel_id: None,
                self_deaf: self@.deaf,
                self_mute: self@.mute,
            }),
    {
        self.voice_update(None)
    }

    /// Takes the connection information out once the handshake is complete.
    fn sync(&mut self) -> (r: Option<ConnectionInfo>)
        ensures
            synced(old(self)@.info, r, final(self)@.info),
            final(self)@ == (PlayerView { info: final(self)@.info, ..old(self)@ }),
    {
        if !self.info.complete() {
            return None;
        }
        let mut info = PartialConnectionInfo::new();
        std::mem::swap(&mut self.info, &mut info);
        Some(info.into_info())
    }

    /// Merges a voice-state fragment (channel, possibly none, and session id) and syncs: the
    /// result is the connection information to send to the server, present exactly when the
    /// merged handshake is complete, after which the accumulator is empty.
    pub fn on_voice_state(&mut self, channel_id: Option<u64>, session_id: String) -> (r: Option<
        ConnectionInfo,
    >)
        ensures
            synced(with_voice_state(old(self)@.info, channel_id, session_id), r, final(self)@.info),
            final(self)@ == (PlayerView { info: final(self)@.info, ..old(self)@ }),
    {
        self.info.channel_id = channel_id;
        self.info.session_id = Some(session_id);
        self.sync()
    }

    /// Merges a voice-server fragment (endpoint, possibly none, and token) and syncs, as
    /// `on_voice_state` does.
    pub fn on_voice_server(&mut self, endpoint: Option<String>, token: String) -> (r: Option<
        ConnectionInfo,
    >)
        ensures
            synced(with_voice_server(old(self)@.info, endpoint, token), r, final(self)@.info),
            final(self)@ == (PlayerView { info: final(self)@.info, ..old(self)@ }),
    {
        self.info.endpoint = endpoint;
        self.info.token = Some(token);
        self.sync()
    }
}

/// Setting the volume a player already has sends nothing and changes nothing.
pub proof fn lemma_same_volume_is_free(p: PlayerView, v: u8)
    requires
        p.volume == v,
    ensures
        server_calls(p, seq![PlayerRequest::SetVolume(v)]) == 0,
        after_commands(p, seq![PlayerRequest::SetVolume(v)]) == p,
{
    let s = seq![PlayerRequest::SetVolume(v)];
    let e = Seq::<PlayerRequest>::empty();
    assert(s[0] == PlayerRequest::SetVolume(v));
    assert(s.drop_first() =~= e);
    assert(server_calls(p, s) == server_calls(p, e));
    assert(after_commands(p, s) == after_commands(p, e));
}

/// On a playing player, pausing twice sends one request, and resuming afterwards sends one
/// more and leaves the player unpaused.
pub proof fn lemma_pause_twice_then_resume(p: PlayerView)
    requires
        !p.paused,
    ensures
        server_calls(p, seq![PlayerRequest::Pause, PlayerRequest::Pause]) == 1,
        after_commands(p, seq![PlayerRequest::Pause, PlayerRequest::Pause]).paused,
        server_calls(p, seq![PlayerRequest::Pause, PlayerRequest::Pause, PlayerRequest::Resume])
            == 2,
        !after_commands(
            p,
            seq![PlayerRequest::Pause, PlayerRequest::Pause, PlayerRequest::Resume],
        ).paused,
{
    let e = Seq::<PlayerRequest>::empty();
    let r = seq![PlayerRequest::Resume];
    let pr = seq![PlayerRequest::Pause, PlayerRequest::Resume];
    let ppr = seq![PlayerRequest::Pause, PlayerRequest::Pause, PlayerRequest::Resume];
    let one = seq![PlayerRequest::Pause];
    let pp = seq![PlayerRequest::Pause, PlayerRequest::Pause];
    let q = accepted(p, PlayerRequest::Pause);
    let z = accepted(q, PlayerRequest::Resume);
    assert(q.paused && !z.paused);
    assert(one.drop_first() =~= e && one[0] == PlayerRequest::Pause);
    assert(pp.drop_first() =~= one && pp[0] == PlayerRequest::Pause);
    assert(r.drop_first() =~= e && r[0] == PlayerRequest::Resume);
    assert(pr.drop_first() =~= r && pr[0] == PlayerRequest::Pause);
    assert(ppr.drop_first() =~= pr && ppr[0] == PlayerRequest::Pause);
    // two pauses
    assert(server_calls(q, e) == 0);
    assert(server_calls(q, one) == 0);
    assert(server_calls(p, pp) == 1);
    assert(after_commands(q, e) == q);
    assert(after_commands(q, one) == q);
    assert(after_commands(p, pp) == q);
    // two pauses, then a resume
    assert(server_calls(z, e) == 0);
    assert(server_calls(q, r) == 1);
    assert(server_calls(q, pr) == 1);
    assert(server_calls(p, ppr) == 2);
    assert(after_commands(z, e) == z);
    assert(after_commands(q, r) == z);
    assert(after_commands(q, pr) == z);
    assert(after_commands(p, ppr) == z);
}

/// From an empty accumulator, a voice-state fragment alone never completes the handshake,
/// and the voice-server fragment that follows completes it exactly when it carries an
/// endpoint; in the other order the same holds.
pub proof fn lemma_handshake_completes_on_second_fragment(
    info: PartialConnectionInfo,
    channel_id: Option<u64>,
    session_id: String,
    endpoint: Option<String>,
    token: String,
)
    requires
        info.is_empty(),
    ensures
        !with_voice_state(info, channel_id, session_id).is_complete(),
        with_voice_server(with_voice_state(info, channel_id, session_id), endpoint, token).is_complete()
            <==> endpoint is Some,
        !with_voice_server(info, endpoint, token).is_complete(),
        with_voice_state(with_voice_server(info, endpoint, token), channel_id, session_id).is_complete()
            <==> endpoint is Some,
{
}

} // verus!
