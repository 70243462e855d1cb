//! The two phases of a run and the batch processing they share.

pub mod batch;
pub mod bridge;
pub mod menu;
pub mod supervisor;
pub mod warmup;
pub mod worker;
