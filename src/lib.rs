//! A resizable pool of worker threads that heals itself when a job panics.
//!
//! This crate holds the pool's protocol: the shared counters, the job queue,
//! the capacity check each worker makes between jobs, resizing, and the
//! recovery guard that replaces a worker whose job panicked. Each operation is
//! a step from one pool state to the next, and tells the caller which threads
//! to start or stop. The threads themselves are run by the caller.
use vstd::prelude::*;

pub mod pool;
pub mod sentinel;
pub mod laws;

pub use pool::{PoolView, Received, ThreadPool};
pub use sentinel::Sentinel;
