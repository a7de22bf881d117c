//! Typed mirrors of the remote JSON shapes, for the parts whose fields this
//! crate can carry. They are inert value objects: their layout is an
//! external, pre-agreed wire contract of the remote service.

pub mod all_times_since_today;
pub mod commit;
pub mod summaries;

pub use all_times_since_today::AllTimeSinceTodayRange;
pub use commit::{Project, Repository};
pub use summaries::SummaryRange;
