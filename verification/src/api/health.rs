//! The health report.

use vstd::prelude::*;

verus! {

/// What the health endpoint answers.
pub struct HealthReport {
    pub status: u16,
    pub ready: bool,
    pub reason: String,
}

/// The health report, given whether the database answered.
pub fn report(database_ok: bool) -> (r: HealthReport)
    ensures
        r.ready == database_ok,
        r.status == (if database_ok { 200u16 } else { 500u16 }),
        r.reason@ == (if database_ok { "Everything is OK"@ } else { "Database connection error"@ }),
{
    if database_ok {
        HealthReport { status: 200, ready: true, reason: String::from_str("Everything is OK") }
    } else {
        HealthReport {
            status: 500,
            ready: false,
            reason: String::from_str("Database connection error"),
        }
    }
}

} // verus!
