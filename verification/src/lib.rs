//! A timer that measures the intervals between successive named checkpoints.
//!
//! A [`Mulstant`] is started with [`Mulstant::new`], notes a [`Record`] at each
//! call of [`Mulstant::record`], and is consumed by [`Mulstant::finalize`], which
//! yields a [`MulstantResult`]: the records in call order and the total time.

pub mod clock;
pub mod laws;
pub mod record;
pub mod report;
pub mod span;
pub mod timer;

pub use record::Record;
pub use report::MulstantResult;
pub use span::TimeSpan;
pub use timer::Mulstant;
