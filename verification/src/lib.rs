//! A transactional publish pipeline.
//!
//! A publish runs in three stages (pre-publish, publish, post-publish). Each
//! stage records its side effects in transactions; when a later stage fails,
//! every transaction that was already committed is rolled back in reverse
//! order, so a partial failure never leaves the target half-written.

mod context;
mod error;
mod publish;
mod runner;
pub mod transactions;

pub use self::context::{Context, Value};
pub use self::error::Error;
pub use self::publish::Publish;
pub use self::runner::run;
