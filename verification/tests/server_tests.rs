use raid_race_lib::alive::Id;
use raid_race_lib::message::EntityBits;
use raid_race_lib::server::{broadcast_targets, find_id};

#[test]
fn find_id_finds_first_match() {
    let ids = [Id(4), Id(7), Id(7), Id(1)];
    assert_eq!(find_id(&ids, 7), Some(1));
    assert_eq!(find_id(&ids, 1), Some(3));
    assert_eq!(find_id(&ids, 9), None);
    assert_eq!(find_id(&[], 0), None);
}

#[test]
fn attack_is_told_to_everyone_but_the_owner() {
    let e = |b: u64| EntityBits::from_bits(b);
    let peers = [e(1), e(2), e(3), e(2)];
    assert_eq!(broadcast_targets(e(2), &peers), vec![e(1), e(3)]);
    assert_eq!(broadcast_targets(e(9), &peers), peers.to_vec());
    assert_eq!(broadcast_targets(e(1), &[e(1)]), vec![]);
}

#[test]
fn fresh_ids_are_those_not_taken() {
    let mut taken = std::collections::HashSet::new();
    assert!(raid_race_lib::server::is_fresh_id(&taken, 5));
    taken.insert(5u64);
    taken.insert(u64::MAX);
    assert!(!raid_race_lib::server::is_fresh_id(&taken, 5));
    assert!(!raid_race_lib::server::is_fresh_id(&taken, u64::MAX));
    assert!(raid_race_lib::server::is_fresh_id(&taken, 6));
}
