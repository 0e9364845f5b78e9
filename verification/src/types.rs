//! The record model: canonical shapes for each entity variant.
//!
//! Hashes and identity keys are opaque to this engine: it only ever compares
//! them for equality and uses them as lookup keys, so each is modelled as a
//! distinct plain identifier type.  The substrate that resolves real
//! content-addressed hashes maps them one-for-one onto these identifiers.

use vstd::prelude::*;

verus! {

/// An action hash: identifies one record revision (and, for a record's first
/// revision, the record itself).
#[derive(Clone, Copy, PartialEq, Eq, Structural, Debug)]
pub struct ActionId(pub u64);

/// An entry hash: content address of a record's entry body (icons, anchors).
#[derive(Clone, Copy, PartialEq, Eq, Structural, Debug)]
pub struct EntryId(pub u64);

/// A cryptographically verified author identity key.
#[derive(Clone, Copy, PartialEq, Eq, Structural, Debug)]
pub struct AgentKey(pub u64);

/// A foreign registry (DNA) identifier.
#[derive(Clone, Copy, PartialEq, Eq, Structural, Debug)]
pub struct DnaId(pub u64);

/// Stable identifier of an entity: the hash of its first revision.
pub type EntityId = ActionId;

/// The owning editor group of a record: the group's identity paired with the
/// pinned revision the author believed current at mutation time.
#[derive(Clone, Copy, PartialEq, Eq, Structural, Debug)]
pub struct GroupRef {
    pub group_id: ActionId,
    pub pinned_revision: ActionId,
}

/// A value in the open, string-keyed metadata map of a record.
#[derive(Clone, PartialEq, Eq, Debug)]
pub enum MetaValue {
    Boolean(bool),
    Integer(u64),
    Text(String),
}

/// One key/value pair of a metadata map.
#[derive(Clone, Debug)]
pub struct MetaEntry {
    pub key: String,
    pub value: MetaValue,
}

/// Open string-keyed map of auxiliary values: a forward-compatible extension
/// point.  Keys are unique; `get` returns the value of the first match.
#[derive(Clone, Debug)]
#[verifier::ext_equal]
pub struct Metadata {
    pub entries: Vec<MetaEntry>,
}

/// The first value bound to `key` in `entries`, if any.
pub open spec fn spec_meta_get(entries: Seq<MetaEntry>, key: Seq<char>) -> Option<MetaValue>
    decreases entries.len(),
{
    if entries.len() == 0 {
        None
    } else if entries[0].key@ == key {
        Some(entries[0].value)
    } else {
        spec_meta_get(entries.drop_first(), key)
    }
}

impl Metadata {
    /// The map's value for `key`, if present.
    pub open spec fn spec_get(self, key: Seq<char>) -> Option<MetaValue> {
        spec_meta_get(self.entries@, key)
    }

    /// An empty metadata map.
    pub fn new() -> (r: Metadata)
        ensures
            r.entries@.len() == 0,
    {
        Metadata { entries: Vec::new() }
    }

    /// Looks `key` up in the map.
    pub fn get(&self, key: &String) -> (r: Option<&MetaValue>)
        ensures
            match r {
                Some(v) => self.spec_get(key@) == Some(*v),
                None => self.spec_get(key@) is None,
            },
    {
        let n = self.entries.len();
        assert(self.entries@.skip(0) =~= self.entries@);
        for i in 0..n
            invariant
                n == self.entries@.len(),
                spec_meta_get(self.entries@, key@) == spec_meta_get(
                    self.entries@.skip(i as int),
                    key@,
                ),
        {
            assert(self.entries@.skip(i as int).drop_first() =~= self.entries@.skip(i + 1));
            if self.entries[i].key == *key {
                return Some(&self.entries[i].value);
            }
        }
        assert(self.entries@.skip(n as int) =~= Seq::<MetaEntry>::empty());
        None
    }

    /// Appends a binding; with a unique `key` this extends the map.
    pub fn push(&mut self, key: String, value: MetaValue)
        ensures
            final(self).entries@ == old(self).entries@.push(
                MetaEntry { key, value },
            ),
    {
        self.entries.push(MetaEntry { key, value });
    }
}

/// Optional notice that a record line is deprecated; once set it blocks most
/// further field edits except the explicit un-deprecation path.
#[derive(Clone, Debug)]
pub struct DeprecationNotice {
    pub message: String,
    pub recommended_alternatives: Option<Vec<ActionId>>,
}

/// A web address, with an optional context label.
#[derive(Clone, Debug)]
pub struct WebAddress {
    pub url: String,
    pub context: Option<String>,
}

/// A hash-resolvable locator of an external resource: the registry that holds
/// it and the target within that registry.
#[derive(Clone, Copy, PartialEq, Eq, Structural, Debug)]
pub struct HRL {
    pub dna: DnaId,
    pub target: EntryId,
}

/// The bundle digest triple of an app version; write-once after creation.
#[derive(Clone, Debug)]
pub struct BundleHashes {
    pub hash: String,
    pub ui_hash: String,
    pub happ_hash: String,
}

impl BundleHashes {
    /// Whether `self` and `other` hold the same three digests.
    pub open spec fn spec_same(self, other: BundleHashes) -> bool {
        self.hash@ == other.hash@ && self.ui_hash@ == other.ui_hash@ && self.happ_hash@
            == other.happ_hash@
    }

    /// Compares the three digests.
    pub fn same(&self, other: &BundleHashes) -> (r: bool)
        ensures
            r == self.spec_same(*other),
    {
        self.hash == other.hash && self.ui_hash == other.ui_hash && self.happ_hash
            == other.happ_hash
    }
}

/// A publisher of apps, owned by an evolving editor group.
#[derive(Clone)]
pub struct PublisherEntry {
    pub name: String,
    pub location: String,
    pub website: WebAddress,
    pub editors_group_id: GroupRef,
    pub published_at: u64,
    pub last_updated: u64,
    pub metadata: Metadata,
    pub description: Option<String>,
    pub email: Option<String>,
    pub icon: Option<EntryId>,
    pub deprecation: Option<DeprecationNotice>,
}

/// An app in the catalog, owned by an evolving editor group and attached to a
/// publisher.
#[derive(Clone)]
pub struct AppEntry {
    pub title: String,
    pub subtitle: String,
    pub description: String,
    pub icon: EntryId,
    pub publisher: EntityId,
    pub apphub_hrl: HRL,
    pub apphub_hrl_hash: EntryId,
    pub editors_group_id: GroupRef,
    pub published_at: u64,
    pub last_updated: u64,
    pub metadata: Metadata,
    pub deprecation: Option<DeprecationNotice>,
}

/// One released version of an app.  `for_app`, the external-resource
/// reference and hash, and the bundle digests are write-once.
#[derive(Clone)]
pub struct AppVersionEntry {
    pub version: String,
    pub for_app: EntityId,
    pub apphub_hrl: HRL,
    pub apphub_hrl_hash: EntryId,
    pub bundle_hashes: BundleHashes,
    pub editors_group_id: GroupRef,
    pub author: AgentKey,
    pub published_at: u64,
    pub last_updated: u64,
    pub metadata: Metadata,
}

/// One decision in a group's moderation trail over a content subject.
#[derive(Clone)]
pub struct ModeratorActionEntry {
    pub group_id: GroupRef,
    pub author: AgentKey,
    pub published_at: u64,
    pub message: String,
    pub subject_id: EntityId,
    pub metadata: Metadata,
}

/// Derived, content-addressed marker for one group: the stable attachment
/// point of that group's moderation edges.
#[derive(Clone, Copy, PartialEq, Eq, Structural, Debug)]
pub struct GroupAnchorEntry {
    pub group_id: ActionId,
}

/// The fields every content entry carries: advisory timestamps and the
/// open metadata map.
pub trait CommonFields {
    /// The entry's advisory publication timestamp.
    spec fn spec_published_at(&self) -> u64;

    /// The entry's advisory last-update timestamp.
    spec fn spec_last_updated(&self) -> u64;

    /// The entry's metadata map.
    spec fn spec_metadata(&self) -> Metadata;

    /// The entry's advisory publication timestamp.
    fn published_at(&self) -> (r: u64)
        ensures
            r == self.spec_published_at(),
    ;

    /// The entry's advisory last-update timestamp.
    fn last_updated(&self) -> (r: u64)
        ensures
            r == self.spec_last_updated(),
    ;

    /// The entry's metadata map.
    fn metadata(&self) -> (r: &Metadata)
        ensures
            *r == self.spec_metadata(),
    ;
}

impl CommonFields for PublisherEntry {
    open spec fn spec_published_at(&self) -> u64 {
        self.published_at
    }

    open spec fn spec_last_updated(&self) -> u64 {
        self.last_updated
    }

    open spec fn spec_metadata(&self) -> Metadata {
        self.metadata
    }

    fn published_at(&self) -> u64 {
        self.published_at
    }

    fn last_updated(&self) -> u64 {
        self.last_updated
    }

    fn metadata(&self) -> &Metadata {
        &self.metadata
    }
}

impl CommonFields for AppEntry {
    open spec fn spec_published_at(&self) -> u64 {
        self.published_at
    }

    open spec fn spec_last_updated(&self) -> u64 {
        self.last_updated
    }

    open spec fn spec_metadata(&self) -> Metadata {
        self.metadata
    }

    fn published_at(&self) -> u64 {
        self.published_at
    }

    fn last_updated(&self) -> u64 {
        self.last_updated
    }

    fn metadata(&self) -> &Metadata {
        &self.metadata
    }
}

impl CommonFields for AppVersionEntry {
    open spec fn spec_published_at(&self) -> u64 {
        self.published_at
    }

    open spec fn spec_last_updated(&self) -> u64 {
        self.last_updated
    }

    open spec fn spec_metadata(&self) -> Metadata {
        self.metadata
    }

    fn published_at(&self) -> u64 {
        self.published_at
    }

    fn last_updated(&self) -> u64 {
        self.last_updated
    }

    fn metadata(&self) -> &Metadata {
        &self.metadata
    }
}

/// An entry payload of any variant, as a candidate mutation carries it.
#[derive(Clone)]
pub enum EntryTypes {
    Publisher(PublisherEntry),
    App(AppEntry),
    AppVersion(AppVersionEntry),
    ModeratorAction(ModeratorActionEntry),
    GroupAnchor(GroupAnchorEntry),
}

/// The typed edges of the registry's index.
#[derive(Clone, Copy, PartialEq, Eq, Structural, Debug)]
pub enum LinkTypes {
    AgentToGroup,
    AgentToPublisher,
    AllPublishersToPublisher,
    AgentToApp,
    PublisherToApp,
    AllAppsToApp,
    AppToAppVersion,
    GroupAnchorToModeratorAction,
}

} // verus!
