//! Server-side lookups: finding entities by identifier and choosing who hears of an attack.
use crate::alive::Id;
use crate::message::EntityBits;
use std::collections::HashSet;
use vstd::prelude::*;

verus! {

/// The position of the first identifier in `ids` equal to `target`, if any.
pub fn find_id(ids: &[Id], target: u64) -> (i: Option<usize>)
    ensures
        match i {
            Some(i) => i < ids@.len() && ids@[i as int].0 == target && forall|j: int|
                0 <= j < i ==> (#[trigger] ids@[j]).0 != target,
            None => forall|j: int| 0 <= j < ids@.len() ==> (#[trigger] ids@[j]).0 != target,
        },
{
    let mut k: usize = 0;
    while k < ids.len()
        invariant
            0 <= k <= ids@.len(),
            forall|j: int| 0 <= j < k ==> (#[trigger] ids@[j]).0 != target,
        decreases ids@.len() - k,
    {
        if ids[k].0 == target {
            return Some(k);
        }
        k = k + 1;
    }
    None
}

/// The connections to tell of an attack: every connection but the attacker's own owner, in
/// order.
pub open spec fn broadcast_spec(owner: EntityBits, peers: Seq<EntityBits>) -> Seq<EntityBits> {
    peers.filter(|p: EntityBits| p != owner)
}

/// The connections to tell of an attack whose attacker is controlled by `owner`.
pub fn broadcast_targets(owner: EntityBits, peers: &[EntityBits]) -> (r: Vec<EntityBits>)
    ensures
        r@ == broadcast_spec(owner, peers@),
{
    let mut r: Vec<EntityBits> = Vec::new();
    let mut k: usize = 0;
    while k < peers.len()
        invariant
            0 <= k <= peers@.len(),
            r@ == broadcast_spec(owner, peers@.take(k as int)),
        decreases peers@.len() - k,
    {
        let p = peers[k];
        proof {
            reveal_with_fuel(Seq::filter, 1);
            assert(peers@.take(k + 1).drop_last() =~= peers@.take(k as int));
            crate::message::lemma_entity_bits_injective(p, owner);
        }
        if p.to_bits() != owner.to_bits() {
            r.push(p);
        }
        k = k + 1;
    }
    assert(peers@.take(peers@.len() as int) =~= peers@);
    r
}

/// No connection that hears of an attack is the attacker's owner, and every other connection
/// does.
pub proof fn lemma_broadcast_skips_only_owner(owner: EntityBits, peers: Seq<EntityBits>)
    ensures
        forall|i: int| 0 <= i < broadcast_spec(owner, peers).len() ==> #[trigger] broadcast_spec(owner, peers)[i] != owner,
        forall|p: EntityBits| peers.contains(p) && p != owner ==> #[trigger] broadcast_spec(owner, peers).contains(p),
{
    broadcast use vstd::seq_lib::group_filter_ensures;

    assert forall|p: EntityBits| peers.contains(p) && p != owner implies #[trigger] broadcast_spec(
        owner,
        peers,
    ).contains(p) by {
        let k = choose|k: int| 0 <= k < peers.len() && peers[k] == p;
        peers.lemma_filter_contains(|q: EntityBits| q != owner, k);
    }
}

/// Whether a candidate client id is not handed out yet, so the id service may hand it out.
pub fn is_fresh_id(taken: &HashSet<u64>, candidate: u64) -> (fresh: bool)
    ensures
        fresh == !taken@.contains(candidate),
{
    broadcast use vstd::std_specs::hash::group_hash_axioms;

    !taken.contains(&candidate)
}

} // verus!
