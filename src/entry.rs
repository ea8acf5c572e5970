use vstd::prelude::*;

use crate::clock::Timestamp;

verus! {

/// What a client supplies to record an event: everything but the id and the
/// time, which the store assigns.
///
/// `value_bits` is the IEEE-754 bit pattern of the event's numeric value; the
/// store carries it without reading it.
#[derive(Clone, Debug, PartialEq, Eq)]
pub struct StatRequest {
    pub event_type: String,
    pub user_id: u32,
    pub value_bits: u64,
    pub metadata: Option<String>,
}

/// One recorded event. Once stored it is never changed.
#[derive(Clone, Debug, PartialEq, Eq)]
pub struct StatEntry {
    pub id: u32,
    pub event_type: String,
    pub user_id: u32,
    pub timestamp: Timestamp,
    pub value_bits: u64,
    pub metadata: Option<String>,
}

/// The entry that a request becomes once it is given an id and a time.
pub open spec fn entry_of(req: StatRequest, id: u32, timestamp: Timestamp) -> StatEntry {
    StatEntry {
        id,
        event_type: req.event_type,
        user_id: req.user_id,
        timestamp,
        value_bits: req.value_bits,
        metadata: req.metadata,
    }
}

/// The event types that count as revenue.
pub open spec fn is_revenue_label(t: Seq<char>) -> bool {
    t == "revenue"@ || t == "purchase"@
}

fn copy_text(s: &Option<String>) -> (r: Option<String>)
    ensures
        r == *s,
{
    match s {
        Some(m) => Some(m.clone()),
        None => None,
    }
}

impl StatRequest {
    /// A request with the same fields.
    pub fn duplicate(&self) -> (r: StatRequest)
        ensures
            r == *self,
    {
        StatRequest {
            event_type: self.event_type.clone(),
            user_id: self.user_id,
            value_bits: self.value_bits,
            metadata: copy_text(&self.metadata),
        }
    }
}

impl StatEntry {
    /// An entry with the same fields.
    pub fn duplicate(&self) -> (r: StatEntry)
        ensures
            r == *self,
    {
        StatEntry {
            id: self.id,
            event_type: self.event_type.clone(),
            user_id: self.user_id,
            timestamp: self.timestamp,
            value_bits: self.value_bits,
            metadata: copy_text(&self.metadata),
        }
    }

    /// Builds the entry for `req` with the given id and time.
    pub fn from_request(req: StatRequest, id: u32, timestamp: Timestamp) -> (r: StatEntry)
        ensures
            r == entry_of(req, id, timestamp),
    {
        StatEntry {
            id,
            event_type: req.event_type,
            user_id: req.user_id,
            timestamp,
            value_bits: req.value_bits,
            metadata: req.metadata,
        }
    }
}

/// Whether an event type is one of the revenue-related ones, `"revenue"` or
/// `"purchase"`.
pub fn is_revenue_type(t: &String) -> (r: bool)
    ensures
        r == is_revenue_label(t@),
{
    let revenue = "revenue".to_owned();
    let purchase = "purchase".to_owned();
    *t == revenue || *t == purchase
}

} // verus!
