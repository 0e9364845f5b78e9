//! The read-only view of already-published, hash-verified data.
//!
//! Validation is stateless: each peer evaluates a candidate mutation against
//! the records it has already accepted.  The substrate resolves hashes; this
//! view holds what those resolutions return, as plain values.  The engine
//! never writes to it.

use vstd::prelude::*;

use crate::group::Group;
use crate::types::{
    ActionId, AgentKey, AppEntry, AppVersionEntry, EntryId, GroupAnchorEntry, LinkTypes,
    ModeratorActionEntry, PublisherEntry,
};

verus! {

/// A published record of content type `T`: its stable identity (the hash of
/// its first revision), the entry address of its current content, the
/// verified author of its first revision, and the content itself.
#[derive(Clone)]
pub struct Record<T> {
    pub id: ActionId,
    pub address: EntryId,
    pub created_by: AgentKey,
    pub content: T,
}

/// What the blob-size oracle reports for one stored blob: its stored size
/// and, when known, its uncompressed size.
#[derive(Clone, Copy, PartialEq, Eq, Structural, Debug)]
pub struct MemoryEntry {
    pub address: EntryId,
    pub memory_size: u64,
    pub uncompressed_size: Option<u64>,
}

impl MemoryEntry {
    /// The size the icon ceiling is checked against: the uncompressed size
    /// if known, else the stored size.
    pub open spec fn spec_reported_size(self) -> u64 {
        match self.uncompressed_size {
            Some(n) => n,
            None => self.memory_size,
        }
    }

    /// The size the icon ceiling is checked against.
    pub fn reported_size(&self) -> (r: u64)
        ensures
            r == self.spec_reported_size(),
    {
        match self.uncompressed_size {
            Some(n) => n,
            None => self.memory_size,
        }
    }
}

/// An address a typed edge can start from or point to.
#[derive(Clone, Copy, PartialEq, Eq, Structural, Debug)]
pub enum LinkAddress {
    /// An agent identity key.
    Agent(AgentKey),
    /// An entry hash (anchors, blobs).
    Entry(EntryId),
    /// An action hash (records, group revisions).
    Action(ActionId),
}

/// A published typed edge.
#[derive(Clone, Copy, PartialEq, Eq, Structural, Debug)]
pub struct Link {
    pub author: AgentKey,
    pub base: LinkAddress,
    pub target: LinkAddress,
    pub link_type: LinkTypes,
}

/// The first record in `records` whose identity is `id`, if any.
pub open spec fn spec_find_record<T>(records: Seq<Record<T>>, id: ActionId) -> Option<Record<T>>
    decreases records.len(),
{
    if records.len() == 0 {
        None
    } else if records[0].id == id {
        Some(records[0])
    } else {
        spec_find_record(records.drop_first(), id)
    }
}

/// Looks a record up by its stable identity.
pub fn find_record<T>(records: &Vec<Record<T>>, id: ActionId) -> (r: Option<&Record<T>>)
    ensures
        match r {
            Some(record) => spec_find_record(records@, id) == Some(*record),
            None => spec_find_record(records@, id) is None,
        },
{
    let n = records.len();
    assert(records@.skip(0) =~= records@);
    for i in 0..n
        invariant
            n == records@.len(),
            spec_find_record(records@, id) == spec_find_record(records@.skip(i as int), id),
    {
        assert(records@.skip(i as int).drop_first() =~= records@.skip(i + 1));
        if records[i].id == id {
            return Some(&records[i]);
        }
    }
    assert(records@.skip(n as int) =~= Seq::<Record<T>>::empty());
    None
}

/// The first group in `groups` whose identity is `id`, if any.
pub open spec fn spec_find_group(groups: Seq<Group>, id: ActionId) -> Option<Group>
    decreases groups.len(),
{
    if groups.len() == 0 {
        None
    } else if groups[0].spec_id() == id {
        Some(groups[0])
    } else {
        spec_find_group(groups.drop_first(), id)
    }
}

/// The first group in `groups` whose chain holds revision `rev`, if any.
pub open spec fn spec_find_group_with_revision(groups: Seq<Group>, rev: ActionId) -> Option<Group>
    decreases groups.len(),
{
    if groups.len() == 0 {
        None
    } else if groups[0].spec_has_revision(rev) {
        Some(groups[0])
    } else {
        spec_find_group_with_revision(groups.drop_first(), rev)
    }
}

/// The first blob report in `memories` at `address`, if any.
pub open spec fn spec_find_memory(memories: Seq<MemoryEntry>, address: EntryId) -> Option<
    MemoryEntry,
>
    decreases memories.len(),
{
    if memories.len() == 0 {
        None
    } else if memories[0].address == address {
        Some(memories[0])
    } else {
        spec_find_memory(memories.drop_first(), address)
    }
}

/// The first anchor record in `anchors` at entry address `address`, if any.
pub open spec fn spec_find_anchor_at(
    anchors: Seq<Record<GroupAnchorEntry>>,
    address: EntryId,
) -> Option<Record<GroupAnchorEntry>>
    decreases anchors.len(),
{
    if anchors.len() == 0 {
        None
    } else if anchors[0].address == address {
        Some(anchors[0])
    } else {
        spec_find_anchor_at(anchors.drop_first(), address)
    }
}

/// The read-only view of published data a validation runs against.
pub struct RecordView {
    pub groups: Vec<Group>,
    pub publishers: Vec<Record<PublisherEntry>>,
    pub apps: Vec<Record<AppEntry>>,
    pub app_versions: Vec<Record<AppVersionEntry>>,
    pub moderator_actions: Vec<Record<ModeratorActionEntry>>,
    pub group_anchors: Vec<Record<GroupAnchorEntry>>,
    pub memories: Vec<MemoryEntry>,
    /// Entry address of the global "all apps" anchor.
    pub all_apps_anchor: EntryId,
    /// Entry address of the global "all publishers" anchor.
    pub all_publishers_anchor: EntryId,
}

impl RecordView {
    /// Every group chain in the view is well formed.
    pub open spec fn wf(self) -> bool {
        forall|i: int| 0 <= i < self.groups@.len() ==> (#[trigger] self.groups@[i]).wf()
    }

    /// The group with identity `id`, if the view holds it.
    pub open spec fn spec_group(self, id: ActionId) -> Option<Group> {
        spec_find_group(self.groups@, id)
    }

    /// Resolves a group by its identity.
    pub fn group(&self, id: ActionId) -> (r: Option<&Group>)
        requires
            self.wf(),
        ensures
            match r {
                Some(g) => self.spec_group(id) == Some(*g) && g.wf(),
                None => self.spec_group(id) is None,
            },
    {
        let n = self.groups.len();
        assert(self.groups@.skip(0) =~= self.groups@);
        for i in 0..n
            invariant
                self.wf(),
                n == self.groups@.len(),
                spec_find_group(self.groups@, id) == spec_find_group(
                    self.groups@.skip(i as int),
                    id,
                ),
        {
            assert(self.groups@.skip(i as int).drop_first() =~= self.groups@.skip(i + 1));
            if self.groups[i].id() == id {
                return Some(&self.groups[i]);
            }
        }
        assert(self.groups@.skip(n as int) =~= Seq::<Group>::empty());
        None
    }

    /// The group holding revision `rev` in its chain, if the view has one.
    pub open spec fn spec_group_with_revision(self, rev: ActionId) -> Option<Group> {
        spec_find_group_with_revision(self.groups@, rev)
    }

    /// Resolves the group revision record at `rev`.
    pub fn group_with_revision(&self, rev: ActionId) -> (r: Option<&Group>)
        requires
            self.wf(),
        ensures
            match r {
                Some(g) => self.spec_group_with_revision(rev) == Some(*g) && g.wf(),
                None => self.spec_group_with_revision(rev) is None,
            },
    {
        let n = self.groups.len();
        assert(self.groups@.skip(0) =~= self.groups@);
        for i in 0..n
            invariant
                self.wf(),
                n == self.groups@.len(),
                spec_find_group_with_revision(self.groups@, rev) == spec_find_group_with_revision(
                    self.groups@.skip(i as int),
                    rev,
                ),
        {
            assert(self.groups@.skip(i as int).drop_first() =~= self.groups@.skip(i + 1));
            if self.groups[i].has_revision(rev) {
                return Some(&self.groups[i]);
            }
        }
        assert(self.groups@.skip(n as int) =~= Seq::<Group>::empty());
        None
    }

    /// The blob report at `address`, if the size oracle has one.
    pub open spec fn spec_memory(self, address: EntryId) -> Option<MemoryEntry> {
        spec_find_memory(self.memories@, address)
    }

    /// Asks the size oracle about the blob at `address`.
    pub fn memory(&self, address: EntryId) -> (r: Option<MemoryEntry>)
        ensures
            r == self.spec_memory(address),
    {
        let n = self.memories.len();
        assert(self.memories@.skip(0) =~= self.memories@);
        for i in 0..n
            invariant
                n == self.memories@.len(),
                spec_find_memory(self.memories@, address) == spec_find_memory(
                    self.memories@.skip(i as int),
                    address,
                ),
        {
            assert(self.memories@.skip(i as int).drop_first() =~= self.memories@.skip(i + 1));
            if self.memories[i].address == address {
                return Some(self.memories[i]);
            }
        }
        assert(self.memories@.skip(n as int) =~= Seq::<MemoryEntry>::empty());
        None
    }

    /// The publisher record with identity `id`, if published.
    pub open spec fn spec_publisher(self, id: ActionId) -> Option<Record<PublisherEntry>> {
        spec_find_record(self.publishers@, id)
    }

    /// Resolves a publisher record by identity.
    pub fn publisher(&self, id: ActionId) -> (r: Option<&Record<PublisherEntry>>)
        ensures
            match r {
                Some(record) => self.spec_publisher(id) == Some(*record),
                None => self.spec_publisher(id) is None,
            },
    {
        find_record(&self.publishers, id)
    }

    /// The app record with identity `id`, if published.
    pub open spec fn spec_app(self, id: ActionId) -> Option<Record<AppEntry>> {
        spec_find_record(self.apps@, id)
    }

    /// Resolves an app record by identity.
    pub fn app(&self, id: ActionId) -> (r: Option<&Record<AppEntry>>)
        ensures
            match r {
                Some(record) => self.spec_app(id) == Some(*record),
                None => self.spec_app(id) is None,
            },
    {
        find_record(&self.apps, id)
    }

    /// The moderator-action record with identity `id`, if published.
    pub open spec fn spec_moderator_action(self, id: ActionId) -> Option<
        Record<ModeratorActionEntry>,
    > {
        spec_find_record(self.moderator_actions@, id)
    }

    /// Resolves a moderator-action record by identity.
    pub fn moderator_action(&self, id: ActionId) -> (r: Option<&Record<ModeratorActionEntry>>)
        ensures
            match r {
                Some(record) => self.spec_moderator_action(id) == Some(*record),
                None => self.spec_moderator_action(id) is None,
            },
    {
        find_record(&self.moderator_actions, id)
    }

    /// The group-anchor record at entry address `address`, if published.
    pub open spec fn spec_group_anchor_at(self, address: EntryId) -> Option<
        Record<GroupAnchorEntry>,
    > {
        spec_find_anchor_at(self.group_anchors@, address)
    }

    /// Resolves a group anchor by its entry address.
    pub fn group_anchor_at(&self, address: EntryId) -> (r: Option<&Record<GroupAnchorEntry>>)
        ensures
            match r {
                Some(record) => self.spec_group_anchor_at(address) == Some(*record),
                None => self.spec_group_anchor_at(address) is None,
            },
    {
        let n = self.group_anchors.len();
        assert(self.group_anchors@.skip(0) =~= self.group_anchors@);
        for i in 0..n
            invariant
                n == self.group_anchors@.len(),
                spec_find_anchor_at(self.group_anchors@, address) == spec_find_anchor_at(
                    self.group_anchors@.skip(i as int),
                    address,
                ),
        {
            assert(self.group_anchors@.skip(i as int).drop_first() =~= self.group_anchors@.skip(
                i + 1,
            ));
            if self.group_anchors[i].address == address {
                return Some(&self.group_anchors[i]);
            }
        }
        assert(self.group_anchors@.skip(n as int) =~= Seq::<Record<GroupAnchorEntry>>::empty());
        None
    }
}

} // verus!
