use vstd::prelude::*;

use crate::clock::Timestamp;
use crate::entry::{entry_of, StatEntry, StatRequest};
use crate::store::{of_revenue, of_user, StoreModel};

verus! {

/// The state after appending each request in turn, each at its own time:
/// any serialisation of concurrent appends is such a sequence.
pub open spec fn append_all(m: StoreModel, ops: Seq<(StatRequest, Timestamp)>) -> StoreModel
    decreases ops.len(),
{
    if ops.len() == 0 {
        m
    } else {
        append_all(m, ops.drop_last()).append(ops.last().0, ops.last().1)
    }
}

/// The entries that a sequence of appends adds, with ids counted from
/// `first_id`.
pub open spec fn added_entries(first_id: nat, ops: Seq<(StatRequest, Timestamp)>) -> Seq<
    StatEntry,
> {
    Seq::new(ops.len(), |k: int| entry_of(ops[k].0, (first_id + k) as u32, ops[k].1))
}

/// Appending keeps every earlier entry in place and adds the new entries at
/// the end, in the order of the appends, each with the next id; the store
/// stays well formed.
pub proof fn lemma_append_all_order(m: StoreModel, ops: Seq<(StatRequest, Timestamp)>)
    requires
        m.wf(),
        m.next_id + ops.len() <= u32::MAX,
    ensures
        append_all(m, ops).entries == m.entries + added_entries(m.next_id, ops),
        append_all(m, ops).next_id == m.next_id + ops.len(),
        append_all(m, ops).wf(),
    decreases ops.len(),
{
    if ops.len() == 0 {
        assert(m.entries + added_entries(m.next_id, ops) =~= m.entries);
    } else {
        let prev = ops.drop_last();
        lemma_append_all_order(m, prev);
        let p = append_all(m, prev);
        let n = p.entries.len();
        assert forall|k: int| 0 <= k < n + 1 implies #[trigger] p.append(
            ops.last().0,
            ops.last().1,
        ).entries[k].id == p.next_id + 1 - (n + 1) + k by {
            if k < n {
                assert(p.entries[k].id == p.next_id - n + k);
            }
        }
        assert(p.append(ops.last().0, ops.last().1).entries =~= m.entries + added_entries(
            m.next_id,
            ops,
        ));
    }
}

/// However a run of appends is ordered, the new entries get exactly the ids
/// `next_id`, `next_id + 1`, ..., `next_id + n - 1`, in that order, the
/// counter moves on by `n`, and no two stored entries share an id.
pub proof fn lemma_append_all_ids(m: StoreModel, ops: Seq<(StatRequest, Timestamp)>)
    requires
        m.wf(),
        m.next_id + ops.len() <= u32::MAX,
    ensures
        forall|k: int|
            0 <= k < ops.len() ==> #[trigger] append_all(m, ops).entries[m.entries.len() + k].id
                == m.next_id + k,
        append_all(m, ops).entries.len() == m.entries.len() + ops.len(),
        append_all(m, ops).next_id == m.next_id + ops.len(),
        forall|i: int, j: int|
            0 <= i < append_all(m, ops).entries.len() && 0 <= j < append_all(m, ops).entries.len()
                && i != j ==> #[trigger] append_all(m, ops).entries[i].id
                != #[trigger] append_all(m, ops).entries[j].id,
{
    lemma_append_all_order(m, ops);
    let r = append_all(m, ops);
    assert forall|k: int| 0 <= k < ops.len() implies #[trigger] r.entries[m.entries.len()
        + k].id == m.next_id + k by {
        assert(r.entries[m.entries.len() + k] == added_entries(m.next_id, ops)[k]);
    }
    assert forall|i: int, j: int|
        0 <= i < r.entries.len() && 0 <= j < r.entries.len() && i != j implies #[trigger] r.entries[i].id
        != #[trigger] r.entries[j].id by {
        assert(r.entries[i].id == r.next_id - r.entries.len() + i);
        assert(r.entries[j].id == r.next_id - r.entries.len() + j);
    }
}

/// The entries of a user are exactly the stored entries with that user id:
/// each one selected has it, and each stored one that has it is selected.
pub proof fn lemma_user_entries_exact(m: StoreModel, user_id: u32)
    ensures
        forall|i: int|
            0 <= i < m.user_entries(user_id).len() ==> (#[trigger] m.user_entries(user_id)[i]).user_id
                == user_id && m.entries.contains(m.user_entries(user_id)[i]),
        forall|i: int|
            0 <= i < m.entries.len() && (#[trigger] m.entries[i]).user_id == user_id
                ==> m.user_entries(user_id).contains(m.entries[i]),
        m.user_entries(user_id).len() <= m.entries.len(),
{
    broadcast use vstd::seq_lib::group_filter_ensures;

    let r = m.user_entries(user_id);
    assert forall|i: int| 0 <= i < r.len() implies m.entries.contains(r[i]) by {
        assert(r.contains(r[i]));
        m.entries.lemma_filter_contains_rev(of_user(user_id), r[i]);
    }
}

/// After an append, the entries of a user are those before, followed by the
/// new entry when it belongs to that user: the order of insertion is kept.
pub proof fn lemma_user_entries_append(
    m: StoreModel,
    req: StatRequest,
    timestamp: Timestamp,
    user_id: u32,
)
    ensures
        m.append(req, timestamp).user_entries(user_id) == (if req.user_id == user_id {
            m.user_entries(user_id).push(m.next_entry(req, timestamp))
        } else {
            m.user_entries(user_id)
        }),
{
    reveal(Seq::filter);
    assert(m.append(req, timestamp).entries.drop_last() =~= m.entries);
}

/// The revenue-related entries are exactly the stored entries whose type is
/// `"revenue"` or `"purchase"`.
pub proof fn lemma_revenue_entries_exact(m: StoreModel)
    ensures
        forall|i: int|
            0 <= i < m.revenue_entries().len() ==> of_revenue()(#[trigger] m.revenue_entries()[i])
                && m.entries.contains(m.revenue_entries()[i]),
        forall|i: int|
            0 <= i < m.entries.len() && of_revenue()(#[trigger] m.entries[i])
                ==> m.revenue_entries().contains(m.entries[i]),
        m.revenue_entries().len() <= m.entries.len(),
{
    broadcast use vstd::seq_lib::group_filter_ensures;

    let r = m.revenue_entries();
    assert forall|i: int| 0 <= i < r.len() implies m.entries.contains(r[i]) by {
        assert(r.contains(r[i]));
        m.entries.lemma_filter_contains_rev(of_revenue(), r[i]);
    }
}

/// After an append, the revenue-related entries are those before, followed
/// by the new entry when its type is revenue-related.
pub proof fn lemma_revenue_entries_append(m: StoreModel, req: StatRequest, timestamp: Timestamp)
    ensures
        m.append(req, timestamp).revenue_entries() == (if of_revenue()(
            m.next_entry(req, timestamp),
        ) {
            m.revenue_entries().push(m.next_entry(req, timestamp))
        } else {
            m.revenue_entries()
        }),
{
    reveal(Seq::filter);
    assert(m.append(req, timestamp).entries.drop_last() =~= m.entries);
}

} // verus!
