//! The committee of every slot and shard.

use vstd::prelude::*;
use std::collections::HashMap;

verus! {

/// The number under which the committee of a slot and shard is filed. No two
/// pairs share one.
pub open spec fn committee_key(slot: u64, shard_id: u16) -> u128 {
    (slot as u128 * 0x1_0000 + shard_id as u128) as u128
}

/// Distinct pairs of slot and shard are filed under distinct numbers.
pub proof fn lemma_committee_key_is_injective(
    slot_a: u64,
    shard_a: u16,
    slot_b: u64,
    shard_b: u16,
)
    requires
        committee_key(slot_a, shard_a) == committee_key(slot_b, shard_b),
    ensures
        slot_a == slot_b,
        shard_a == shard_b,
{
}

/// For each slot and shard that has one, its committee: validator indices in
/// the order in which the bits of a bitfield address them.
pub struct AttesterMap {
    committees: HashMap<u128, Vec<usize>>,
}

impl View for AttesterMap {
    type V = Map<(u64, u16), Seq<usize>>;

    closed spec fn view(&self) -> Map<(u64, u16), Seq<usize>> {
        Map::new(
            |k: (u64, u16)| self.committees@.contains_key(committee_key(k.0, k.1)),
            |k: (u64, u16)| self.committees@[committee_key(k.0, k.1)]@,
        )
    }
}

impl AttesterMap {
    /// The committee of a slot and shard as the map holds it, where it holds
    /// one.
    pub closed spec fn spec_get(&self, slot: u64, shard_id: u16) -> Option<Vec<usize>> {
        if self.committees@.contains_key(committee_key(slot, shard_id)) {
            Some(self.committees@[committee_key(slot, shard_id)])
        } else {
            None
        }
    }

    /// The members of the committee that the map holds for a slot and shard
    /// are those that its view gives.
    pub proof fn lemma_spec_get_agrees_with_view(&self, slot: u64, shard_id: u16)
        ensures
            match self.spec_get(slot, shard_id) {
                Some(c) => self@.contains_key((slot, shard_id)) && c@ == self@[(slot, shard_id)],
                None => !self@.contains_key((slot, shard_id)),
            },
    {
    }
}

fn key_of(slot: u64, shard_id: u16) -> (key: u128)
    ensures
        key == committee_key(slot, shard_id),
{
    slot as u128 * 0x1_0000 + shard_id as u128
}

impl AttesterMap {
    /// A map that holds no committee.
    pub fn new() -> (map: AttesterMap)
        ensures
            map@ == Map::<(u64, u16), Seq<usize>>::empty(),
    {
        let map = AttesterMap { committees: HashMap::new() };
        assert(map@ =~= Map::<(u64, u16), Seq<usize>>::empty());
        map
    }

    /// Files `committee` for a slot and shard, in place of the committee that
    /// was there, which is handed back.
    pub fn insert(&mut self, slot: u64, shard_id: u16, committee: Vec<usize>) -> (previous: Option<
        Vec<usize>,
    >)
        ensures
            final(self)@ == old(self)@.insert((slot, shard_id), committee@),
            match previous {
                Some(p) => old(self)@.contains_key((slot, shard_id)) && p@ == old(self)@[(
                    slot,
                    shard_id,
                )],
                None => !old(self)@.contains_key((slot, shard_id)),
            },
    {
        let key = key_of(slot, shard_id);
        let previous = self.committees.insert(key, committee);
        proof {
            assert forall|k: (u64, u16)| k != (slot, shard_id) implies committee_key(k.0, k.1)
                != key by {
                if committee_key(k.0, k.1) == key {
                    lemma_committee_key_is_injective(k.0, k.1, slot, shard_id);
                }
            }
            assert(self@ =~= old(self)@.insert((slot, shard_id), committee@));
        }
        previous
    }

    /// The committee of a slot and shard, where the map holds one.
    pub fn get(&self, slot: u64, shard_id: u16) -> (committee: Option<&Vec<usize>>)
        ensures
            match committee {
                Some(c) => self.spec_get(slot, shard_id) == Some(*c) && self@.contains_key(
                    (slot, shard_id),
                ) && c@ == self@[(slot, shard_id)],
                None => self.spec_get(slot, shard_id) is None && !self@.contains_key(
                    (slot, shard_id),
                ),
            },
    {
        let key = key_of(slot, shard_id);
        self.committees.get(&key)
    }
}

} // verus!
