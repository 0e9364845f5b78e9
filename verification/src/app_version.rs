//! App-version lifecycle: building creations and updates, and the
//! per-app version query.
//!
//! A version carries a direct author field; its `for_app` reference, its
//! external-resource reference and hash, and its bundle digest triple are
//! write-once after creation, which the validation engine enforces.

use vstd::prelude::*;

use crate::store::Record;
use crate::types::{
    ActionId, AgentKey, AppVersionEntry, BundleHashes, EntityId, EntryId, GroupRef, Metadata, HRL,
};

verus! {

/// What a caller supplies to create an app version.
pub struct CreateInput {
    pub version: String,
    pub for_app: EntityId,
    pub apphub_hrl: HRL,
    pub apphub_hrl_hash: EntryId,
    pub bundle_hashes: BundleHashes,
    pub editors_group_id: GroupRef,
    pub published_at: Option<u64>,
    pub last_updated: Option<u64>,
    pub metadata: Option<Metadata>,
}

/// The property changes a version update may request: only the mutable
/// fields; the write-once fields have no place here.
pub struct UpdateProperties {
    pub version: Option<String>,
    pub published_at: Option<u64>,
    pub last_updated: Option<u64>,
    pub metadata: Option<Metadata>,
}

/// Names the version record to delete.
pub struct DeleteInput {
    pub base: ActionId,
}

/// The payload of a new app version, authored by `author`, with `now` for
/// absent timestamps and empty metadata when none is given.
pub fn create_app_version(input: CreateInput, author: AgentKey, now: u64) -> (r: AppVersionEntry)
    ensures
        r.version == input.version,
        r.for_app == input.for_app,
        r.apphub_hrl == input.apphub_hrl,
        r.apphub_hrl_hash == input.apphub_hrl_hash,
        r.bundle_hashes == input.bundle_hashes,
        r.editors_group_id == input.editors_group_id,
        r.author == author,
        r.published_at == match input.published_at {
            Some(t) => t,
            None => now,
        },
        r.last_updated == match input.last_updated {
            Some(t) => t,
            None => now,
        },
        input.metadata matches Some(m) ==> r.metadata == m,
        input.metadata is None ==> r.metadata.entries@.len() == 0,
{
    AppVersionEntry {
        version: input.version,
        for_app: input.for_app,
        apphub_hrl: input.apphub_hrl,
        apphub_hrl_hash: input.apphub_hrl_hash,
        bundle_hashes: input.bundle_hashes,
        editors_group_id: input.editors_group_id,
        author,
        published_at: match input.published_at {
            Some(t) => t,
            None => now,
        },
        last_updated: match input.last_updated {
            Some(t) => t,
            None => now,
        },
        metadata: match input.metadata {
            Some(m) => m,
            None => Metadata::new(),
        },
    }
}

/// The payload of a version update: the mutable fields fold over the
/// current revision, `author` re-binds the updating agent, and every
/// write-once field carries over untouched.
pub fn update_app_version(current: AppVersionEntry, props: UpdateProperties, author: AgentKey)
    -> (r: AppVersionEntry)
    ensures
        r.version == match props.version {
            Some(v) => v,
            None => current.version,
        },
        r.author == author,
        r.published_at == match props.published_at {
            Some(v) => v,
            None => current.published_at,
        },
        r.last_updated == match props.last_updated {
            Some(v) => v,
            None => current.last_updated,
        },
        r.metadata == match props.metadata {
            Some(v) => v,
            None => current.metadata,
        },
        r.for_app == current.for_app,
        r.apphub_hrl == current.apphub_hrl,
        r.apphub_hrl_hash == current.apphub_hrl_hash,
        r.bundle_hashes == current.bundle_hashes,
        r.editors_group_id == current.editors_group_id,
{
    AppVersionEntry {
        version: match props.version {
            Some(v) => v,
            None => current.version,
        },
        author,
        published_at: match props.published_at {
            Some(v) => v,
            None => current.published_at,
        },
        last_updated: match props.last_updated {
            Some(v) => v,
            None => current.last_updated,
        },
        metadata: match props.metadata {
            Some(v) => v,
            None => current.metadata,
        },
        ..current
    }
}

/// The identities of the versions in `versions` that belong to `for_app`,
/// in order.
pub open spec fn spec_app_version_ids(versions: Seq<Record<AppVersionEntry>>, for_app: EntityId)
    -> Seq<EntityId>
    decreases versions.len(),
{
    if versions.len() == 0 {
        Seq::empty()
    } else {
        let rest = spec_app_version_ids(versions.drop_first(), for_app);
        if versions[0].content.for_app == for_app {
            seq![versions[0].id] + rest
        } else {
            rest
        }
    }
}

/// Every published version of the app `for_app`, by identity, in order.
pub fn get_app_versions_for_app(versions: &Vec<Record<AppVersionEntry>>, for_app: EntityId) -> (r:
    Vec<EntityId>)
    ensures
        r@ == spec_app_version_ids(versions@, for_app),
{
    let mut found: Vec<EntityId> = Vec::new();
    let n = versions.len();
    assert(versions@.skip(0) =~= versions@);
    for i in 0..n
        invariant
            n == versions@.len(),
            spec_app_version_ids(versions@, for_app) == found@ + spec_app_version_ids(
                versions@.skip(i as int),
                for_app,
            ),
    {
        assert(versions@.skip(i as int).drop_first() =~= versions@.skip(i + 1));
        let ghost before = found@;
        if versions[i].content.for_app == for_app {
            found.push(versions[i].id);
            assert(before + spec_app_version_ids(versions@.skip(i as int), for_app) =~= found@
                + spec_app_version_ids(versions@.skip(i + 1), for_app));
        }
    }
    assert(spec_app_version_ids(versions@.skip(n as int), for_app) =~= Seq::<EntityId>::empty());
    assert(found@ + spec_app_version_ids(versions@.skip(n as int), for_app) =~= found@);
    found
}

} // verus!
