use vstd::prelude::*;

use crate::clock::{now, Timestamp};
use crate::entry::{entry_of, is_revenue_label, is_revenue_type, StatEntry, StatRequest};

verus! {

/// Selects the entries of one user.
pub open spec fn of_user(user_id: u32) -> spec_fn(StatEntry) -> bool {
    |e: StatEntry| e.user_id == user_id
}

/// Selects the entries whose type is revenue-related.
pub open spec fn of_revenue() -> spec_fn(StatEntry) -> bool {
    |e: StatEntry| is_revenue_label(e.event_type@)
}

/// The abstract state of a store: its entries in insertion order and the id
/// that the next entry will get.
pub struct StoreModel {
    pub entries: Seq<StatEntry>,
    pub next_id: nat,
}

impl StoreModel {
    /// The ids of the entries are consecutive, in insertion order, and end
    /// just below `next_id`, which fits in a `u32`.
    pub open spec fn wf(self) -> bool {
        &&& self.next_id <= u32::MAX
        &&& self.entries.len() <= self.next_id
        &&& forall|k: int|
            0 <= k < self.entries.len() ==> #[trigger] self.entries[k].id == self.next_id
                - self.entries.len() + k
    }

    /// The entry that `req` becomes when appended at time `timestamp`.
    pub open spec fn next_entry(self, req: StatRequest, timestamp: Timestamp) -> StatEntry {
        entry_of(req, self.next_id as u32, timestamp)
    }

    /// The state after appending `req` at time `timestamp`.
    pub open spec fn append(self, req: StatRequest, timestamp: Timestamp) -> StoreModel {
        StoreModel {
            entries: self.entries.push(self.next_entry(req, timestamp)),
            next_id: self.next_id + 1,
        }
    }

    /// The entries of one user, in insertion order.
    pub open spec fn user_entries(self, user_id: u32) -> Seq<StatEntry> {
        self.entries.filter(of_user(user_id))
    }

    /// The revenue-related entries, in insertion order.
    pub open spec fn revenue_entries(self) -> Seq<StatEntry> {
        self.entries.filter(of_revenue())
    }
}

/// The store of all events and the counter of ids.
pub struct StatStore {
    stats: Vec<StatEntry>,
    next_id: u32,
}

impl View for StatStore {
    type V = StoreModel;

    closed spec fn view(&self) -> StoreModel {
        StoreModel { entries: self.stats@, next_id: self.next_id as nat }
    }
}

/// Filtering a prefix one entry longer keeps that entry exactly when it is
/// selected.
proof fn lemma_filter_step(s: Seq<StatEntry>, i: int, keep: spec_fn(StatEntry) -> bool)
    requires
        0 <= i < s.len(),
    ensures
        s.subrange(0, i + 1).filter(keep) == (if keep(s[i]) {
            s.subrange(0, i).filter(keep).push(s[i])
        } else {
            s.subrange(0, i).filter(keep)
        }),
{
    reveal(Seq::filter);
    assert(s.subrange(0, i + 1).drop_last() =~= s.subrange(0, i));
}

impl StatStore {
    /// An empty store whose first entry will get id 1.
    pub fn new() -> (r: StatStore)
        ensures
            r@.wf(),
            r@.entries == Seq::<StatEntry>::empty(),
            r@.next_id == 1,
    {
        let r = StatStore { stats: Vec::new(), next_id: 1 };
        assert(r@.entries =~= Seq::<StatEntry>::empty());
        r
    }

    /// The id that the next appended entry will get.
    pub fn next_id(&self) -> (r: u32)
        ensures
            r == self@.next_id,
    {
        self.next_id
    }

    /// Every stored entry, in insertion order.
    pub fn list_all(&self) -> (r: Vec<StatEntry>)
        ensures
            r@ == self@.entries,
    {
        let mut out: Vec<StatEntry> = Vec::new();
        let mut i: usize = 0;
        while i < self.stats.len()
            invariant
                i <= self.stats@.len(),
                out@ == self.stats@.subrange(0, i as int),
            decreases self.stats@.len() - i,
        {
            out.push(self.stats[i].duplicate());
            i = i + 1;
            assert(out@ =~= self.stats@.subrange(0, i as int));
        }
        assert(self.stats@.subrange(0, i as int) =~= self.stats@);
        out
    }

    /// Appends `req` with the next id and the given time, and returns the new
    /// entry.
    pub fn append_at(&mut self, req: StatRequest, timestamp: Timestamp) -> (r: StatEntry)
        requires
            old(self)@.wf(),
            old(self)@.next_id < u32::MAX,
        ensures
            final(self)@ == old(self)@.append(req, timestamp),
            final(self)@.wf(),
            r == old(self)@.next_entry(req, timestamp),
    {
        let id = self.next_id;
        self.next_id = id + 1;
        let entry = StatEntry::from_request(req, id, timestamp);
        let r = entry.duplicate();
        self.stats.push(entry);
        assert(self@.entries =~= old(self)@.append(req, timestamp).entries);
        r
    }

    /// Appends `req` with the next id, stamped with the current time, and
    /// returns the new entry.
    pub fn append(&mut self, req: StatRequest) -> (r: StatEntry)
        requires
            old(self)@.wf(),
            old(self)@.next_id < u32::MAX,
        ensures
            r.timestamp.wf(),
            final(self)@ == old(self)@.append(req, r.timestamp),
            final(self)@.wf(),
            r == old(self)@.next_entry(req, r.timestamp),
    {
        let timestamp = now();
        self.append_at(req, timestamp)
    }

    /// The entries of one user, in insertion order.
    pub fn filter_by_user(&self, user_id: u32) -> (r: Vec<StatEntry>)
        ensures
            r@ == self@.user_entries(user_id),
    {
        let mut out: Vec<StatEntry> = Vec::new();
        let mut i: usize = 0;
        while i < self.stats.len()
            invariant
                i <= self.stats@.len(),
                out@ == self.stats@.subrange(0, i as int).filter(of_user(user_id)),
            decreases self.stats@.len() - i,
        {
            proof {
                lemma_filter_step(self.stats@, i as int, of_user(user_id));
            }
            if self.stats[i].user_id == user_id {
                out.push(self.stats[i].duplicate());
            }
            i = i + 1;
        }
        assert(self.stats@.subrange(0, i as int) =~= self.stats@);
        out
    }

    /// The entries whose type is `"revenue"` or `"purchase"`, in insertion
    /// order.
    pub fn filter_revenue(&self) -> (r: Vec<StatEntry>)
        ensures
            r@ == self@.revenue_entries(),
    {
        let mut out: Vec<StatEntry> = Vec::new();
        let mut i: usize = 0;
        while i < self.stats.len()
            invariant
                i <= self.stats@.len(),
                out@ == self.stats@.subrange(0, i as int).filter(of_revenue()),
            decreases self.stats@.len() - i,
        {
            proof {
                lemma_filter_step(self.stats@, i as int, of_revenue());
            }
            if is_revenue_type(&self.stats[i].event_type) {
                out.push(self.stats[i].duplicate());
            }
            i = i + 1;
        }
        assert(self.stats@.subrange(0, i as int) =~= self.stats@);
        out
    }

    /// The entries of one user, or `None` when the user has none.
    pub fn user_stats(&self, user_id: u32) -> (r: Option<Vec<StatEntry>>)
        ensures
            r is None <==> self@.user_entries(user_id).len() == 0,
            r matches Some(v) ==> v@ == self@.user_entries(user_id),
    {
        let found = self.filter_by_user(user_id);
        if found.len() == 0 {
            None
        } else {
            Some(found)
        }
    }
}

} // verus!
