//! Validation and authorization engine for a decentralized application
//! registry: a catalog of Publishers, Apps, App Versions and a moderation
//! overlay, stored as immutable content-addressed records.
//!
//! Every peer decides on its own whether a proposed mutation (create, update,
//! delete of a record or of a typed edge) is admissible, using only
//! already-published, hash-verified data.  The ledger substrate (content
//! addressing, signature checks, record fetch-by-hash) is consumed as an
//! interface: it resolves hashes to records and hands this engine plain
//! values; the engine returns a deterministic verdict.

use vstd::prelude::*;

pub mod app;
pub mod app_version;
pub mod group;
pub mod laws;
pub mod moderation;
pub mod publisher;
pub mod store;
pub mod types;
pub mod validation;
pub mod verdict;

verus! {

/// Largest admissible icon blob, in bytes.
pub const ICON_SIZE_LIMIT: u64 = 204_800;

} // verus!
