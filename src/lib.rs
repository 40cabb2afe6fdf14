//! A task tracker: short text tasks kept in insertion order, addressed by
//! zero-based position, together with the rules for adding, completing and
//! deleting them.
pub mod models;
pub mod storage;
