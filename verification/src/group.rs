//! The group resolver: a read-only model of an evolvable editor group.
//!
//! A group is an external entity with its own update chain; this engine only
//! reads it.  The model keeps the chain explicitly: one entry per revision,
//! oldest first, each holding the contributor set as of that revision.  The
//! group's identity is the hash of its first revision; membership questions
//! are answered *at a named revision*, so that a record stays valid under the
//! membership that existed when it was last touched.

use vstd::prelude::*;

use crate::types::{ActionId, AgentKey};

verus! {

/// One revision of a group: its hash and the contributor set it declared.
#[derive(Clone)]
pub struct GroupRevision {
    pub revision: ActionId,
    pub contributors: Vec<AgentKey>,
}

/// A group's whole revision chain, oldest revision first.
#[derive(Clone)]
pub struct Group {
    pub revisions: Vec<GroupRevision>,
}

/// The contributor set of the first chain entry named `rev`, if any.
pub open spec fn spec_find_revision(chain: Seq<GroupRevision>, rev: ActionId) -> Option<
    Seq<AgentKey>,
>
    decreases chain.len(),
{
    if chain.len() == 0 {
        None
    } else if chain[0].revision == rev {
        Some(chain[0].contributors@)
    } else {
        spec_find_revision(chain.drop_first(), rev)
    }
}

impl Group {
    /// A group is well formed when it has at least one revision and no
    /// revision hash repeats (hashes are content addresses, so the substrate
    /// never delivers a duplicate).
    pub open spec fn wf(self) -> bool {
        &&& self.revisions@.len() > 0
        &&& forall|i: int, j: int|
            0 <= i < j < self.revisions@.len() ==> self.revisions@[i].revision
                != self.revisions@[j].revision
    }

    /// The group's stable identity: the hash of its first revision.
    pub open spec fn spec_id(self) -> ActionId {
        self.revisions@[0].revision
    }

    /// The hash of the group's current tip.
    pub open spec fn spec_latest(self) -> ActionId {
        self.revisions@.last().revision
    }

    /// Whether `rev` names a real point in the group's history.
    pub open spec fn spec_has_revision(self, rev: ActionId) -> bool {
        spec_find_revision(self.revisions@, rev) is Some
    }

    /// The contributor set at revision `rev`, if `rev` is in the chain.
    pub open spec fn spec_contributors_at(self, rev: ActionId) -> Option<Seq<AgentKey>> {
        spec_find_revision(self.revisions@, rev)
    }

    /// Whether `agent` is a contributor at revision `rev` of this group.
    /// False when `rev` is not in the chain.
    pub open spec fn spec_is_contributor_at(self, rev: ActionId, agent: AgentKey) -> bool {
        match spec_find_revision(self.revisions@, rev) {
            Some(contributors) => contributors.contains(agent),
            None => false,
        }
    }

    /// Starts a group from its first revision.
    pub fn create_group(revision: ActionId, contributors: Vec<AgentKey>) -> (g: Group)
        ensures
            g.wf(),
            g.spec_id() == revision,
            g.spec_latest() == revision,
            g.revisions@.len() == 1,
            g.revisions@[0].revision == revision,
            g.revisions@[0].contributors == contributors,
    {
        Group { revisions: vec![GroupRevision { revision, contributors }] }
    }

    /// Appends a new revision to the chain's tip.  The substrate guarantees
    /// the new revision hash is fresh, which keeps the chain well formed.
    pub fn update_group(&mut self, revision: ActionId, contributors: Vec<AgentKey>)
        requires
            old(self).wf(),
            !old(self).spec_has_revision(revision),
        ensures
            final(self).wf(),
            final(self).revisions@ == old(self).revisions@.push(
                GroupRevision { revision, contributors },
            ),
            final(self).spec_id() == old(self).spec_id(),
            final(self).spec_latest() == revision,
    {
        proof {
            lemma_find_revision_none_means_absent(self.revisions@, revision);
        }
        self.revisions.push(GroupRevision { revision, contributors });
    }

    /// The group's stable identity.
    pub fn id(&self) -> (r: ActionId)
        requires
            self.wf(),
        ensures
            r == self.spec_id(),
    {
        self.revisions[0].revision
    }

    /// Walks the update chain to its tip: the latest revision hash.
    pub fn latest_revision(&self) -> (r: ActionId)
        requires
            self.wf(),
        ensures
            r == self.spec_latest(),
    {
        self.revisions[self.revisions.len() - 1].revision
    }

    /// Whether `rev` is reachable by walking back from the group's tip.
    pub fn has_revision(&self, rev: ActionId) -> (r: bool)
        ensures
            r == self.spec_has_revision(rev),
    {
        let n = self.revisions.len();
        assert(self.revisions@.skip(0) =~= self.revisions@);
        for i in 0..n
            invariant
                n == self.revisions@.len(),
                spec_find_revision(self.revisions@, rev) == spec_find_revision(
                    self.revisions@.skip(i as int),
                    rev,
                ),
        {
            assert(self.revisions@.skip(i as int).drop_first() =~= self.revisions@.skip(i + 1));
            if self.revisions[i].revision == rev {
                return true;
            }
        }
        assert(self.revisions@.skip(n as int) =~= Seq::<GroupRevision>::empty());
        false
    }

    /// The contributor set at revision `rev`, if `rev` is part of this
    /// group's history.
    pub fn contributors_at(&self, rev: ActionId) -> (r: Option<&Vec<AgentKey>>)
        ensures
            match r {
                Some(contributors) => self.spec_contributors_at(rev) == Some(contributors@),
                None => self.spec_contributors_at(rev) is None,
            },
    {
        let n = self.revisions.len();
        assert(self.revisions@.skip(0) =~= self.revisions@);
        for i in 0..n
            invariant
                n == self.revisions@.len(),
                spec_find_revision(self.revisions@, rev) == spec_find_revision(
                    self.revisions@.skip(i as int),
                    rev,
                ),
        {
            assert(self.revisions@.skip(i as int).drop_first() =~= self.revisions@.skip(i + 1));
            if self.revisions[i].revision == rev {
                return Some(&self.revisions[i].contributors);
            }
        }
        assert(self.revisions@.skip(n as int) =~= Seq::<GroupRevision>::empty());
        None
    }

    /// Tests membership of `agent` at revision `rev`; false when `rev` is not
    /// part of this group's history.
    pub fn is_contributor_at(&self, rev: ActionId, agent: AgentKey) -> (r: bool)
        ensures
            r == self.spec_is_contributor_at(rev, agent),
    {
        let n = self.revisions.len();
        assert(self.revisions@.skip(0) =~= self.revisions@);
        for i in 0..n
            invariant
                n == self.revisions@.len(),
                spec_find_revision(self.revisions@, rev) == spec_find_revision(
                    self.revisions@.skip(i as int),
                    rev,
                ),
        {
            assert(self.revisions@.skip(i as int).drop_first() =~= self.revisions@.skip(i + 1));
            if self.revisions[i].revision == rev {
                return contains_agent(&self.revisions[i].contributors, agent);
            }
        }
        assert(self.revisions@.skip(n as int) =~= Seq::<GroupRevision>::empty());
        false
    }
}

/// A chain in which `rev` never occurs resolves to `None`, and conversely.
proof fn lemma_find_revision_none_means_absent(chain: Seq<GroupRevision>, rev: ActionId)
    ensures
        (spec_find_revision(chain, rev) is None) <==> (forall|i: int|
            0 <= i < chain.len() ==> chain[i].revision != rev),
    decreases chain.len(),
{
    if chain.len() > 0 {
        lemma_find_revision_none_means_absent(chain.drop_first(), rev);
        assert(forall|i: int|
            1 <= i < chain.len() ==> chain[i] == chain.drop_first()[i - 1]);
    }
}

/// Whether `agent` occurs in `agents`.
pub fn contains_agent(agents: &Vec<AgentKey>, agent: AgentKey) -> (r: bool)
    ensures
        r == agents@.contains(agent),
{
    let n = agents.len();
    for i in 0..n
        invariant
            n == agents@.len(),
            forall|j: int| 0 <= j < i ==> agents@[j] != agent,
    {
        if agents[i] == agent {
            return true;
        }
    }
    false
}

} // verus!
