//! Channels for a single-threaded, cooperative scheduler.
pub mod mpsc;
