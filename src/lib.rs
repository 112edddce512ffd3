//! Tracking of many remote git repositories from one place: the persisted
//! store of tracked repositories, and the decisions that drive clone, pull,
//! push, compare and branch switches for each of them.

pub mod config;
pub mod error;
pub mod repo;
pub mod batch;
pub mod confirm;
