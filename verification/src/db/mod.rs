//! The persisted state of a run: accounts, their goals and their bridge states.

pub mod entities;
pub mod erase;
pub mod generate;
pub mod service;
