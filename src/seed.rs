use vstd::prelude::*;

use crate::entry::StatRequest;
use crate::store::StatStore;

verus! {

/// How many synthetic entries a freshly started service holds.
pub const SEED_COUNT: u32 = 19;

/// The type of the `i`-th synthetic entry: the five sample types in turn.
pub open spec fn seed_label(i: nat) -> Seq<char> {
    let k = i % 5;
    if k == 0 {
        "login"@
    } else if k == 1 {
        "pageview"@
    } else if k == 2 {
        "purchase"@
    } else if k == 3 {
        "revenue"@
    } else {
        "signup"@
    }
}

/// The user of the `i`-th synthetic entry: ten users in turn.
pub open spec fn seed_user(i: nat) -> nat {
    i % 10 + 1
}

/// The type of the `i`-th synthetic entry.
pub fn seed_event_type(i: u32) -> (r: String)
    ensures
        r@ == seed_label(i as nat),
{
    let k = i % 5;
    if k == 0 {
        "login".to_owned()
    } else if k == 1 {
        "pageview".to_owned()
    } else if k == 2 {
        "purchase".to_owned()
    } else if k == 3 {
        "revenue".to_owned()
    } else {
        "signup".to_owned()
    }
}

/// The user of the `i`-th synthetic entry.
pub fn seed_user_id(i: u32) -> (r: u32)
    ensures
        r == seed_user(i as nat),
{
    i % 10 + 1
}

/// The request behind the `i`-th synthetic entry, with the given value.
pub fn seed_request(i: u32, value_bits: u64) -> (r: StatRequest)
    ensures
        r.event_type@ == seed_label(i as nat),
        r.user_id == seed_user(i as nat),
        r.value_bits == value_bits,
        r.metadata is None,
{
    StatRequest {
        event_type: seed_event_type(i),
        user_id: seed_user_id(i),
        value_bits,
        metadata: None,
    }
}

impl StatStore {
    /// A store holding one synthetic entry per value, with ids from 1, each
    /// stamped with the current time; `values[k]` is the value of the entry
    /// with id `k + 1`.
    pub fn with_seed(values: &Vec<u64>) -> (r: StatStore)
        requires
            values.len() < u32::MAX,
        ensures
            r@.wf(),
            r@.next_id == values.len() + 1,
            r@.entries.len() == values.len(),
            forall|k: int|
                0 <= k < values.len() ==> {
                    let e = #[trigger] r@.entries[k];
                    &&& e.id == k + 1
                    &&& e.event_type@ == seed_label((k + 1) as nat)
                    &&& e.user_id == seed_user((k + 1) as nat)
                    &&& e.timestamp.wf()
                    &&& e.value_bits == values[k]
                    &&& e.metadata is None
                },
    {
        let mut store = StatStore::new();
        let mut i: usize = 0;
        while i < values.len()
            invariant
                values.len() < u32::MAX,
                i <= values.len(),
                store@.wf(),
                store@.next_id == i + 1,
                store@.entries.len() == i,
                forall|k: int|
                    0 <= k < i ==> {
                        let e = #[trigger] store@.entries[k];
                        &&& e.id == k + 1
                        &&& e.event_type@ == seed_label((k + 1) as nat)
                        &&& e.user_id == seed_user((k + 1) as nat)
                        &&& e.timestamp.wf()
                        &&& e.value_bits == values[k]
                        &&& e.metadata is None
                    },
            decreases values.len() - i,
        {
            let req = seed_request((i + 1) as u32, values[i]);
            store.append(req);
            i = i + 1;
        }
        store
    }
}

} // verus!
