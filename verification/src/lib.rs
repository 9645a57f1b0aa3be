//! A local-first folder hierarchy with background synchronization.
//!
//! The library keeps a workspace's tree of pages and spaces available from a
//! local cache while a detached refresh reconciles it with the remote
//! authority.  Reads are served synchronously from the cache; mutations are
//! routed write-through to the remote authority and the cache converges on a
//! later refresh.  The merge of a fetched subtree into the cache is
//! idempotent, bounded by the fetched depth window, and reports whether
//! anything changed so that notifications fire at most once per distinct
//! outcome.

pub mod changeset;
pub mod error;
pub mod import;
pub mod manager;
pub mod notify;
pub mod search;
pub mod store;
pub mod tree;
pub mod views;

use vstd::prelude::*;

verus! {

} // verus!
