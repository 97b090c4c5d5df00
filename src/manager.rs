//! The registry of players, one per guild, created on first reference.

use crate::connection::ConnectionInfo;
use crate::model::Track;
use crate::player::{
    Player, PlayerRequest, PlayerView, VoiceUpdate, accepted, fresh_player, synced,
    with_voice_server, with_voice_state,
};
use std::collections::HashMap;
use vstd::prelude::*;

verus! {

broadcast use vstd::std_specs::hash::group_hash_axioms;

/// `after` is `before` once the player of `guild` was looked up or, when absent, created;
/// `created` says which.
pub open spec fn get_or_inserted(
    before: Map<u64, Player>,
    guild: u64,
    after: Map<u64, Player>,
    created: bool,
) -> bool {
    &&& created == !before.contains_key(guild)
    &&& after.contains_key(guild)
    &&& !created ==> after == before
    &&& created ==> after == before.insert(guild, after[guild]) && after[guild]@ == fresh_player(
        guild,
    )
}

/// `after` is `before` with the player of `guild`, which `before` holds, changed by `step`.
pub open spec fn updated(
    before: Map<u64, Player>,
    guild: u64,
    after: Map<u64, Player>,
    step: spec_fn(PlayerView) -> PlayerView,
) -> bool {
    &&& before.contains_key(guild)
    &&& after == before.insert(guild, after[guild])
    &&& after[guild]@ == step(before[guild]@)
}

/// Map from guild id to that guild's player.
pub struct PlayerManager {
    players: HashMap<u64, Player>,
}

impl View for PlayerManager {
    type V = Map<u64, Player>;

    closed spec fn view(&self) -> Map<u64, Player> {
        self.players@
    }
}

impl PlayerManager {
    /// The map is finite and every player is stored under its own, non-zero, guild id.
    pub open spec fn wf(&self) -> bool {
        &&& self@.dom().finite()
        &&& forall|g: u64| #[trigger] self@.contains_key(g) ==> g != 0 && self@[g]@.guild == g
    }

    /// An empty registry.
    pub fn new() -> (r: Self)
        ensures
            r@ == Map::<u64, Player>::empty(),
            r.wf(),
    {
        PlayerManager { players: HashMap::new() }
    }

    /// Number of players.
    pub fn len(&self) -> (r: usize)
        ensures
            r == self@.len(),
    {
        self.players.len()
    }

    /// Whether `guild` has a player.
    pub fn contains(&self, guild: u64) -> (r: bool)
        ensures
            r == self@.contains_key(guild),
    {
        self.players.contains_key(&guild)
    }

    /// The player of `guild`, if any.
    pub fn get(&self, guild: u64) -> (r: Option<&Player>)
        ensures
            r is Some <==> self@.contains_key(guild),
            r is Some ==> *r->0 == self@[guild],
    {
        self.players.get(&guild)
    }

    /// Makes sure `guild` has a player, creating a fresh one when it has none; returns whether
    /// one was created. A guild never gets a second player while it has one.
    pub fn get_or_insert(&mut self, guild: u64) -> (created: bool)
        requires
            old(self).wf(),
            guild != 0,
        ensures
            final(self).wf(),
            get_or_inserted(old(self)@, guild, final(self)@, created),
            final(self)@.len() == old(self)@.len() + if created {
                1int
            } else {
                0int
            },
    {
        if self.players.contains_key(&guild) {
            false
        } else {
            self.players.insert(guild, Player::new(guild));
            true
        }
    }

    /// Removes and returns the player of `guild`; removing an absent player does nothing.
    pub fn remove(&mut self, guild: u64) -> (r: Option<Player>)
        requires
            old(self).wf(),
        ensures
            final(self).wf(),
            final(self)@ == old(self)@.remove(guild),
            r is Some <==> old(self)@.contains_key(guild),
            r is Some ==> r->0 == old(self)@[guild],
    {
        self.players.remove(&guild)
    }

    fn take(&mut self, guild: u64) -> (r: Option<Player>)
        ensures
            final(self)@ == old(self)@.remove(guild),
            r is Some <==> old(self)@.contains_key(guild),
            r is Some ==> r->0 == old(self)@[guild],
    {
        self.players.remove(&guild)
    }

    fn put(&mut self, player: Player)
        ensures
            final(self)@ == old(self)@.insert(player@.guild, player),
    {
        let g = player.guild();
        self.players.insert(g, player);
    }

    /// Applies a request the server accepted to the player of `guild`; `false` when the guild
    /// has no player.
    pub fn confirm(&mut self, guild: u64, req: PlayerRequest) -> (r: bool)
        requires
            old(self).wf(),
        ensures
            final(self).wf(),
            r == old(self)@.contains_key(guild),
            !r ==> final(self)@ == old(self)@,
            r ==> updated(old(self)@, guild, final(self)@, |p: PlayerView| accepted(p, req)),
    {
        match self.take(guild) {
            None => false,
            Some(mut p) => {
                p.confirm(req);
                self.put(p);
                assert(self@ =~= old(self)@.insert(guild, self@[guild]));
                true
            },
        }
    }

    /// Appends a track the server accepted to the queue of `guild`'s player; `false` when the
    /// guild has no player.
    pub fn enqueue(&mut self, guild: u64, track: Track) -> (r: bool)
        requires
            old(self).wf(),
        ensures
            final(self).wf(),
            r == old(self)@.contains_key(guild),
            !r ==> final(self)@ == old(self)@,
            r ==> updated(
                old(self)@,
                guild,
                final(self)@,
                |p: PlayerView| PlayerView { queue: p.queue.push(track), ..p },
            ),
    {
        match self.take(guild) {
            None => false,
            Some(mut p) => {
                p.enqueue(track);
                self.put(p);
                assert(self@ =~= old(self)@.insert(guild, self@[guild]));
                true
            },
        }
    }

    /// Puts a track the server accepted at the head of the queue of `guild`'s player; `false`
    /// when the guild has no player.
    pub fn force_play(&mut self, guild: u64, track: Track) -> (r: bool)
        requires
            old(self).wf(),
        ensures
            final(self).wf(),
            r == old(self)@.contains_key(guild),
            !r ==> final(self)@ == old(self)@,
            r ==> updated(
                old(self)@,
                guild,
                final(self)@,
                |p: PlayerView| PlayerView { queue: seq![track] + p.queue, ..p },
            ),
    {
        match self.take(guild) {
            None => false,
            Some(mut p) => {
                p.force_play(track);
                self.put(p);
                assert(self@ =~= old(self)@.insert(guild, self@[guild]));
                true
            },
        }
    }

    /// Sets the deaf flag of `guild`'s player and returns the payload that announces it;
    /// `None` when the guild has no player.
    pub fn set_deaf(&mut self, guild: u64, deaf: bool) -> (r: Option<VoiceUpdate>)
        requires
            old(self).wf(),
        ensures
            final(self).wf(),
            r is Some <==> old(self)@.contains_key(guild),
            r is None ==> final(self)@ == old(self)@,
            r is Some ==> {
                let p = old(self)@[guild]@;
                &&& updated(old(self)@, guild, final(self)@, |q: PlayerView| PlayerView { deaf, ..q })
                &&& r->0 == (VoiceUpdate {
                    guild_id: guild,
                    channel_id: p.channel,
                    self_deaf: deaf,
                    self_mute: p.mute,
                })
            },
    {
        match self.take(guild) {
            None => None,
            Some(mut p) => {
                let u = p.set_deaf(deaf);
                self.put(p);
                assert(self@ =~= old(self)@.insert(guild, self@[guild]));
                Some(u)
            },
        }
    }

    /// Sets the mute flag of `guild`'s player and returns the payload that announces it;
    /// `None` when the guild has no player.
    pub fn set_mute(&mut self, guild: u64, mute: bool) -> (r: Option<VoiceUpdate>)
        requires
            old(self).wf(),
        ensures
            final(self).wf(),
            r is Some <==> old(self)@.contains_key(guild),
            r is None ==> final(self)@ == old(self)@,
            r is Some ==> {
                let p = old(self)@[guild]@;
                &&& updated(old(self)@, guild, final(self)@, |q: PlayerView| PlayerView { mute, ..q })
                &&& r->0 == (VoiceUpdate {
                    guild_id: guild,
                    channel_id: p.channel,
                    self_deaf: p.deaf,
                    self_mute: mute,
                })
            },
    {
        match self.take(guild) {
            None => None,
            Some(mut p) => {
                let u = p.set_mute(mute);
                self.put(p);
                assert(self@ =~= old(self)@.insert(guild, self@[guild]));
                Some(u)
            },
        }
    }

    /// A voice-state fragment for `guild`: creates the player if needed, merges the fragment
    /// and returns the connection information to send once the handshake is complete.
    pub fn on_voice_state(&mut self, guild: u64, channel_id: Option<u64>, session_id: String) -> (r:
        Option<ConnectionInfo>)
        requires
            old(self).wf(),
            guild != 0,
        ensures
            final(self).wf(),
            final(self)@.dom() == old(self)@.dom().insert(guild),
            final(self)@ == final(self)@.remove(guild).insert(guild, final(self)@[guild]),
            final(self)@.remove(guild) == old(self)@.remove(guild),
            ({
                let before = if old(self)@.contains_key(guild) {
                    old(self)@[guild]@
                } else {
                    fresh_player(guild)
                };
                let after = final(self)@[guild]@;
                &&& synced(with_voice_state(before.info, channel_id, session_id), r, after.info)
                &&& after == (PlayerView { info: after.info, ..before })
            }),
    {
        self.get_or_insert(guild);
        match self.take(guild) {
            None => vstd::pervasive::unreached(),
            Some(mut p) => {
                let r = p.on_voice_state(channel_id, session_id);
                self.put(p);
                assert(self@ =~= self@.remove(guild).insert(guild, self@[guild]));
                assert(self@.dom() =~= old(self)@.dom().insert(guild));
                r
            },
        }
    }

    /// A voice-server fragment for `guild`, handled as `on_voice_state` handles a voice-state
    /// fragment.
    pub fn on_voice_server(&mut self, guild: u64, endpoint: Option<String>, token: String) -> (r:
        Option<ConnectionInfo>)
        requires
            old(self).wf(),
            guild != 0,
        ensures
            final(self).wf(),
            final(self)@.dom() == old(self)@.dom().insert(guild),
            final(self)@ == final(self)@.remove(guild).insert(guild, final(self)@[guild]),
            final(self)@.remove(guild) == old(self)@.remove(guild),
            ({
                let before = if old(self)@.contains_key(guild) {
                    old(self)@[guild]@
                } else {
                    fresh_player(guild)
                };
                let after = final(self)@[guild]@;
                &&& synced(with_voice_server(before.info, endpoint, token), r, after.info)
                &&& after == (PlayerView { info: after.info, ..before })
            }),
    {
        self.get_or_insert(guild);
        match self.take(guild) {
            None => vstd::pervasive::unreached(),
            Some(mut p) => {
                let r = p.on_voice_server(endpoint, token);
                self.put(p);
                assert(self@ =~= self@.remove(guild).insert(guild, self@[guild]));
                assert(self@.dom() =~= old(self)@.dom().insert(guild));
                r
            },
        }
    }
}

/// Two get-or-insert calls for the same guild construct at most one player: the second finds
/// the player the first left and changes nothing.
pub proof fn lemma_get_or_insert_constructs_once(
    m0: Map<u64, Player>,
    m1: Map<u64, Player>,
    m2: Map<u64, Player>,
    guild: u64,
    c1: bool,
    c2: bool,
)
    requires
        get_or_inserted(m0, guild, m1, c1),
        get_or_inserted(m1, guild, m2, c2),
    ensures
        !c2,
        m2 == m1,
        m2[guild] == m1[guild],
        c1 <==> !m0.contains_key(guild),
{
}

} // verus!
