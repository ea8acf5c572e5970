//! An in-memory store of analytics events: events are appended with
//! consecutive ids, listed in insertion order, and filtered by user or by
//! revenue-related type. A fixed summary of figures goes with it.

pub mod clock;
pub mod entry;
pub mod laws;
pub mod seed;
pub mod store;
pub mod summary;

pub use clock::Timestamp;
pub use entry::{is_revenue_type, StatEntry, StatRequest};
pub use seed::{seed_event_type, seed_request, seed_user_id, SEED_COUNT};
pub use store::StatStore;
pub use summary::{summary, StatSummary};
