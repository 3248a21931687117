//! Supervises multiple independent copies of a single-instance desktop
//! application. Each copy gets an isolated per-instance data directory and a
//! positive ordinal identity; an in-memory registry tracks the live copies,
//! and a small command surface (spawn one more, terminate all, terminate all
//! and exit) mutates that registry one serialized command at a time.
//!
//! The host program owns the lock, the filesystem, the environment and the
//! child processes; this crate owns the decisions: which ordinal the next
//! instance receives, which storage path it gets, what the registry looks
//! like after each command, and which handles must be terminated in which
//! order.

pub mod commands;
pub mod config;
pub mod digits;
pub mod laws;
pub mod paths;
pub mod registry;
