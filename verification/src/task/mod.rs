//! Tasks: what the agent is asked to do, and their history.

pub mod id;
pub mod memory;
pub mod task;
