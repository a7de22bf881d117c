//! Shapes for the periodic-summary endpoint.

use vstd::prelude::*;

verus! {

/// The day a summary entry covers.
#[derive(Debug, Clone)]
pub struct SummaryRange {
    /// This day as Date string in YEAR-MONTH-DAY format.
    pub date: String,
    /// Start of this day as ISO 8601 UTC datetime.
    pub start: String,
    /// End of this day as ISO 8601 UTC datetime.
    pub end: String,
    /// This day in human-readable format relative to the current day.
    pub text: String,
    /// Timezone used in Olson Country/Region format.
    pub timezone: String,
}

} // verus!
