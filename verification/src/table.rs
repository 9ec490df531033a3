//! Records kept in a vector of slots and read as a map from key to record.

use vstd::prelude::*;

verus! {

/// A record under its key.
pub struct Slot<K, V> {
    pub key: K,
    pub value: V,
}

/// No key occurs in two slots.
pub open spec fn distinct_keys<K, V>(slots: Seq<Slot<K, V>>) -> bool {
    forall|i: int, j: int| 0 <= i < j < slots.len() ==> slots[i].key != slots[j].key
}

/// The map that the slots hold: each key with its record.
pub open spec fn records<K, V>(slots: Seq<Slot<K, V>>) -> Map<K, V>
    decreases slots.len(),
{
    if slots.len() == 0 {
        Map::empty()
    } else {
        records(slots.drop_last()).insert(slots.last().key, slots.last().value)
    }
}

/// The map holds exactly the keys that occur in a slot.
pub proof fn lemma_records_keys<K, V>(slots: Seq<Slot<K, V>>, key: K)
    ensures
        records(slots).contains_key(key) <==> exists|i: int|
            0 <= i < slots.len() && #[trigger] slots[i].key == key,
    decreases slots.len(),
{
    if slots.len() > 0 {
        let front = slots.drop_last();
        lemma_records_keys(front, key);
        if records(slots).contains_key(key) {
            if slots.last().key == key {
                assert(slots[slots.len() - 1].key == key);
            } else {
                let i = choose|i: int| 0 <= i < front.len() && #[trigger] front[i].key == key;
                assert(slots[i].key == key);
            }
        }
        if exists|i: int| 0 <= i < slots.len() && #[trigger] slots[i].key == key {
            let i = choose|i: int| 0 <= i < slots.len() && #[trigger] slots[i].key == key;
            if i < slots.len() - 1 {
                assert(front[i].key == key);
            }
        }
    }
}

/// Where no key occurs twice, the map holds under each slot's key that
/// slot's record.
pub proof fn lemma_records_at<K, V>(slots: Seq<Slot<K, V>>, i: int)
    requires
        distinct_keys(slots),
        0 <= i < slots.len(),
    ensures
        records(slots).contains_key(slots[i].key),
        records(slots)[slots[i].key] == slots[i].value,
    decreases slots.len(),
{
    if i < slots.len() - 1 {
        let front = slots.drop_last();
        assert(front[i] == slots[i]);
        lemma_records_at(front, i);
    }
}

/// A slot added at the end adds its record to the map, and keeps the keys
/// apart where its key is new.
pub proof fn lemma_records_push<K, V>(slots: Seq<Slot<K, V>>, slot: Slot<K, V>)
    ensures
        records(slots.push(slot)) == records(slots).insert(slot.key, slot.value),
        distinct_keys(slots) && !records(slots).contains_key(slot.key) ==> distinct_keys(
            slots.push(slot),
        ),
{
    assert(slots.push(slot).drop_last() =~= slots);
    if distinct_keys(slots) && !records(slots).contains_key(slot.key) {
        let longer = slots.push(slot);
        assert forall|i: int, j: int| 0 <= i < j < longer.len() implies longer[i].key
            != longer[j].key by {
            if j == slots.len() {
                lemma_records_keys(slots, slot.key);
                assert(slots[i].key != slot.key);
            }
        }
    }
}

/// A slot replaced by one with the same key replaces its record in the map,
/// and keeps the keys apart.
pub proof fn lemma_records_update<K, V>(slots: Seq<Slot<K, V>>, i: int, slot: Slot<K, V>)
    requires
        distinct_keys(slots),
        0 <= i < slots.len(),
        slot.key == slots[i].key,
    ensures
        distinct_keys(slots.update(i, slot)),
        records(slots.update(i, slot)) == records(slots).insert(slot.key, slot.value),
    decreases slots.len(),
{
    let updated = slots.update(i, slot);
    let front = slots.drop_last();
    if i == slots.len() - 1 {
        assert(updated.drop_last() =~= front);
        assert(records(updated) =~= records(slots).insert(slot.key, slot.value));
    } else {
        assert(updated.drop_last() =~= front.update(i, slot));
        assert(front[i] == slots[i]);
        lemma_records_update(front, i, slot);
        assert(slots.last().key != slot.key);
        assert(records(updated) =~= records(slots).insert(slot.key, slot.value));
    }
}

} // verus!
