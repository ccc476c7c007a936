//! Orchestration core of a blockchain node.
//!
//! Background subsystem tasks (networking, chain synchronization, block
//! import, database, keystore) run concurrently and report progress by
//! enqueueing [`service::Event`] values onto a bounded channel. The
//! [`service::Service`] facade owns the consuming end of that channel,
//! folds every consumed event into a cached snapshot of what the node
//! currently believes (best chain head, finalized head, connection count),
//! and answers point queries against the database task through a separate
//! request/reply channel.

pub mod channels;
pub mod service;
