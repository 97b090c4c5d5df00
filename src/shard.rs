//! Routing of guilds to the gateway shard that carries them.

use std::collections::HashMap;
use vstd::prelude::*;

verus! {

broadcast use vstd::std_specs::hash::group_hash_axioms;

/// The shard that carries `guild_id` when the bot runs `shard_count` shards.
pub open spec fn shard_of(guild_id: u64, shard_count: u64) -> u64
    recommends
        shard_count > 0,
{
    ((guild_id >> 22u64) % shard_count) as u64
}

/// Discord's sharding formula: `(guild_id >> 22) % shard_count`.
pub fn shard_id(guild_id: u64, shard_count: u64) -> (r: u64)
    requires
        shard_count > 0,
    ensures
        r == shard_of(guild_id, shard_count),
        r < shard_count,
{
    (guild_id >> 22u64) % shard_count
}

/// The shard a guild maps to depends on the guild id and the shard count alone, so repeated
/// lookups agree, and it always names one of the `shard_count` shards.
pub proof fn lemma_shard_of_in_range(guild_id: u64, shard_count: u64)
    requires
        shard_count > 0,
    ensures
        shard_of(guild_id, shard_count) < shard_count,
        shard_of(guild_id, shard_count) == (guild_id >> 22u64) % shard_count,
{
}

/// Table from shard number to the handle that sends on that shard's gateway connection.
pub struct ShardStorage<S> {
    shards: HashMap<u64, S>,
}

impl<S> View for ShardStorage<S> {
    type V = Map<u64, S>;

    closed spec fn view(&self) -> Map<u64, S> {
        self.shards@
    }
}

impl<S> ShardStorage<S> {
    /// An empty table.
    pub fn new() -> (r: Self)
        ensures
            r@ == Map::<u64, S>::empty(),
    {
        ShardStorage { shards: HashMap::new() }
    }

    /// Registers (or replaces) the sender of shard `id`.
    pub fn register(&mut self, id: u64, sender: S)
        ensures
            final(self)@ == old(self)@.insert(id, sender),
    {
        self.shards.insert(id, sender);
    }

    /// Removes the sender of shard `id`, if any.
    pub fn deregister(&mut self, id: u64)
        ensures
            final(self)@ == old(self)@.remove(id),
    {
        self.shards.remove(&id);
    }

    /// Number of registered shards.
    pub fn len(&self) -> (r: usize)
        ensures
            r == self@.len(),
    {
        self.shards.len()
    }

    /// The sender of shard `id`, if registered.
    pub fn get(&self, id: u64) -> (r: Option<&S>)
        ensures
            r is Some <==> self@.contains_key(id),
            r is Some ==> *r->0 == self@[id],
    {
        self.shards.get(&id)
    }

    /// Whether shard `id` has a sender.
    pub fn contains(&self, id: u64) -> (r: bool)
        ensures
            r == self@.contains_key(id),
    {
        self.shards.contains_key(&id)
    }

    /// Whether the table holds the shard that carries `guild`, the shard count being the
    /// number of registered shards. When it does not, the table does not match the shard
    /// count the gateway runs with: a misconfiguration that callers treat as fatal.
    pub fn routes(&self, guild: u64) -> (r: bool)
        ensures
            r == (self@.len() > 0 && self@.contains_key(shard_of(guild, self@.len() as u64))),
    {
        let n = self.shards.len();
        if n == 0 {
            false
        } else {
            self.shards.contains_key(&shard_id(guild, n as u64))
        }
    }

    /// The sender of the shard that carries `guild`, the shard count being the number of
    /// registered shards. The table must hold that shard (see `routes`).
    pub fn for_guild(&self, guild: u64) -> (r: &S)
        requires
            self@.len() > 0,
            self@.contains_key(shard_of(guild, self@.len() as u64)),
        ensures
            *r == self@[shard_of(guild, self@.len() as u64)],
    {
        let n = self.shards.len();
        let k = shard_id(guild, n as u64);
        match self.shards.get(&k) {
            Some(s) => s,
            None => vstd::pervasive::unreached(),
        }
    }
}

} // verus!
