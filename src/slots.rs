//! Sparse-slot ingestion: the wire carries each entity kind as an array whose
//! index is the entity's identifier and whose absent slots are `null`.
use vstd::prelude::*;
use std::collections::HashMap;
use crate::frame::AdapterError;

verus! {

broadcast use vstd::std_specs::hash::group_hash_axioms;

/// The mapping that a slot array denotes: every present slot, keyed by its index.
pub open spec fn slots_to_map<T>(slots: Seq<Option<T>>) -> Map<usize, T> {
    Map::new(
        |i: usize| (i as int) < slots.len() && slots[i as int] is Some,
        |i: usize| slots[i as int]->Some_0,
    )
}

/// The present slots at index `lo` or above, keyed by their index.
spec fn slots_from<T>(slots: Seq<Option<T>>, lo: int) -> Map<usize, T> {
    Map::new(
        |i: usize| lo <= i && (i as int) < slots.len() && slots[i as int] is Some,
        |i: usize| slots[i as int]->Some_0,
    )
}

/// Turns a slot array into a mapping from slot index to entity, dropping the
/// absent slots. Works the same for every entity kind.
pub fn present_slots<T>(slots: Vec<Option<T>>) -> (r: HashMap<usize, T>)
    ensures
        r@ == slots_to_map(slots@),
{
    let ghost all = slots@;
    let mut rest = slots;
    let mut m: HashMap<usize, T> = HashMap::new();
    proof {
        assert(m@ =~= slots_from(all, all.len() as int));
    }
    while rest.len() > 0
        invariant
            rest@.len() <= all.len(),
            rest@ == all.subrange(0, rest@.len() as int),
            m@ == slots_from(all, rest@.len() as int),
        decreases rest@.len(),
    {
        let slot = rest.pop();
        let i = rest.len();
        assert(slot == Some(all[i as int]));
        match slot {
            Some(Some(v)) => {
                m.insert(i, v);
            },
            _ => {},
        }
        proof {
            assert(m@ =~= slots_from(all, i as int));
        }
    }
    proof {
        assert(m@ =~= slots_to_map(all));
    }
    m
}

/// Checks the snapshot's own player id against its ingested players: the id
/// must be a key of the mapping, else the message does not fit its schema.
pub fn check_own_player<T>(players: &HashMap<usize, T>, my_id: usize) -> (r: Result<
    (),
    AdapterError,
>)
    ensures
        r is Ok <==> players@.contains_key(my_id),
        r matches Err(e) ==> e == AdapterError::SchemaError,
{
    if players.contains_key(&my_id) {
        Ok(())
    } else {
        Err(AdapterError::SchemaError)
    }
}

} // verus!

verus! {

/// Every present slot links, through `link`, to a present slot whose own link
/// is the first entry's `id`.
pub open spec fn slots_paired<T>(
    slots: Seq<Option<T>>,
    id: spec_fn(T) -> usize,
    link: spec_fn(T) -> usize,
) -> bool {
    forall|i: int|
        0 <= i < slots.len() && #[trigger] slots[i] is Some ==> {
            let t = link(slots[i]->Some_0) as int;
            &&& t < slots.len()
            &&& slots[t] is Some
            &&& link(slots[t]->Some_0) == id(slots[i]->Some_0)
        }
}

/// Every entry links, through `link`, to a key whose entry links back to the
/// first entry's `id`.
pub open spec fn map_paired<T>(
    m: Map<usize, T>,
    id: spec_fn(T) -> usize,
    link: spec_fn(T) -> usize,
) -> bool {
    forall|k: usize|
        #[trigger] m.contains_key(k) ==> {
            &&& m.contains_key(link(m[k]))
            &&& link(m[link(m[k])]) == id(m[k])
        }
}

/// Ingestion keeps a symmetric pairing: when the wire's entries are paired
/// (as wormholes are, by their target id), then for every entry of the
/// ingested mapping, the entry keyed by its target has a target equal to the
/// first entry's id.
pub proof fn lemma_ingestion_keeps_pairing<T>(
    slots: Seq<Option<T>>,
    id: spec_fn(T) -> usize,
    link: spec_fn(T) -> usize,
)
    requires
        slots_paired(slots, id, link),
    ensures
        map_paired(slots_to_map(slots), id, link),
{
    let m = slots_to_map(slots);
    assert forall|k: usize| #[trigger] m.contains_key(k) implies {
        &&& m.contains_key(link(m[k]))
        &&& link(m[link(m[k])]) == id(m[k])
    } by {
        assert(slots[k as int] is Some);
    }
}

} // verus!
