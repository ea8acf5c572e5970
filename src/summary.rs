use vstd::prelude::*;

verus! {

/// The reported number of users.
pub const TOTAL_USERS: u32 = 8942;

/// The reported number of active users.
pub const ACTIVE_USERS: u32 = 2531;

/// The reported number of users who joined today.
pub const NEW_TODAY: u32 = 147;

/// The reported revenue, in hundredths.
pub const REVENUE_CENTS: u64 = 13495289;

/// Aggregate figures. The service reports fixed figures, not ones computed
/// from the stored entries.
#[derive(Clone, Copy, Debug, PartialEq, Eq, Structural)]
pub struct StatSummary {
    pub total_users: u32,
    pub active_users: u32,
    pub new_today: u32,
    pub revenue_cents: u64,
}

/// The fixed summary figures.
pub fn summary() -> (r: StatSummary)
    ensures
        r == (StatSummary {
            total_users: TOTAL_USERS,
            active_users: ACTIVE_USERS,
            new_today: NEW_TODAY,
            revenue_cents: REVENUE_CENTS,
        }),
{
    StatSummary {
        total_users: TOTAL_USERS,
        active_users: ACTIVE_USERS,
        new_today: NEW_TODAY,
        revenue_cents: REVENUE_CENTS,
    }
}

} // verus!
