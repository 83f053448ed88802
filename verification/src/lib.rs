//! Content-addressed blob storage core.
//!
//! The storage engine behind a small blob-cache service: the deterministic
//! mapping from a content hash to a sharded on-disk path, the atomic write
//! protocol that makes a stored object either fully visible or not visible at
//! all, the streaming bridge that moves bodies chunk by chunk with bounded
//! memory, and the four store operations built on top of them. The
//! surrounding process (HTTP routing, sockets, the real filesystem) is thin
//! plumbing around this core.

pub mod bridge;
pub mod laws;
pub mod protocol;
pub mod resolve;
pub mod status;
pub mod store;
