//! Shapes for the account-lifetime-totals endpoint.

use vstd::prelude::*;

verus! {

/// The date range a lifetime total covers.
#[derive(Debug, Clone)]
pub struct AllTimeSinceTodayRange {
    /// End of today as ISO 8601 UTC datetime.
    pub end: String,
    /// Today as Date string in YEAR-MONTH-DAY format.
    pub end_date: String,
    /// Today in human-readable format.
    pub end_text: String,
    /// Start of user created day as ISO 8601 UTC datetime.
    pub start: String,
    /// Day user was created in YEAR-MONTH-DAY format.
    pub start_date: String,
    /// Day user was created in human-readable format.
    pub start_text: String,
    /// Timezone used in Olson Country/Region format.
    pub timezone: String,
}

} // verus!
