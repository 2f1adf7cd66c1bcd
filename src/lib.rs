//! Tracks tasks through their lifecycle (queued, in progress, completed):
//! the rules for changing state, a keyed store of task records, and the
//! request handling that loads, checks and writes them back.

pub mod task;
pub mod repository;
pub mod api;
