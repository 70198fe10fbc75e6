//! Verified core of a media file cache: deterministic cache naming for opaque
//! content ids, a waiter registry drained by filesystem-creation events, and
//! the decision logic that resolves an id to a local path (cache hit, wait on
//! an in-flight download, direct fetch, or peer resolution).
pub mod b64;
pub mod bytes;
pub mod cache;
pub mod registry;
pub mod res;
