//! Small helpers.

pub mod misc;
