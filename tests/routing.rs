use nightingale::shard::{shard_id, ShardStorage};

#[test]
fn shard_for_known_guild_is_stable() {
    let guild: u64 = 123456789012345678;
    let first = shard_id(guild, 4);
    assert_eq!(first, (guild >> 22) % 4);
    assert_eq!(first, 0);
    for _ in 0..10 {
        assert_eq!(shard_id(guild, 4), first);
    }
    assert_eq!(shard_id(guild, 5), 1);
    assert_eq!(shard_id(guild, 7), 5);
    assert_eq!(shard_id(guild, 16), 8);
}

#[test]
fn shard_is_always_in_range() {
    let guilds: [u64; 5] = [0, 1, 20983865, 123456789012345678, u64::MAX];
    for g in guilds {
        for n in 1..20u64 {
            assert!(shard_id(g, n) < n);
        }
    }
    assert_eq!(shard_id(20983865, 4), 1);
    assert_eq!(shard_id(u64::MAX, 1), 0);
}

#[test]
fn storage_routes_guild_to_its_shard() {
    let mut s: ShardStorage<&str> = ShardStorage::new();
    assert!(!s.routes(20983865));
    s.register(0, "zero");
    s.register(1, "one");
    s.register(2, "two");
    s.register(3, "three");
    assert_eq!(s.len(), 4);
    assert!(s.routes(20983865));
    assert_eq!(s.for_guild(20983865), &"one");
    assert_eq!(s.for_guild(123456789012345678), &"zero");
}

#[test]
fn storage_with_a_gap_does_not_route() {
    let mut s: ShardStorage<u32> = ShardStorage::new();
    s.register(0, 10);
    s.register(5, 15);
    // two shards registered, guild 20983865 maps to shard 1, which is missing
    assert!(!s.routes(20983865));
    s.deregister(5);
    assert!(!s.contains(5));
    assert_eq!(s.len(), 1);
    assert!(s.routes(20983865));
    assert_eq!(s.for_guild(20983865), &10);
}
