//! Publisher lifecycle: building creations and updates.
//!
//! These functions compute the exact entry payload a mutation publishes;
//! the substrate then stores it and every peer validates it.  An update
//! folds the requested property changes over the current revision and
//! re-pins the owning group at its latest revision, so the new record
//! carries a fresh, verifiable pin.

use vstd::prelude::*;

use crate::store::Record;
use crate::types::{
    ActionId, DeprecationNotice, EntityId, EntryId, GroupRef, Metadata, PublisherEntry, WebAddress,
};

verus! {

/// What a caller supplies to create a publisher.
pub struct CreateInput {
    pub name: String,
    pub location: String,
    pub website: WebAddress,
    pub editors_group_id: GroupRef,
    pub description: Option<String>,
    pub email: Option<String>,
    pub icon: Option<EntryId>,
    pub published_at: Option<u64>,
    pub last_updated: Option<u64>,
    pub metadata: Option<Metadata>,
}

/// The property changes an update may request; absent properties keep the
/// current revision's value.
pub struct UpdateProperties {
    pub name: Option<String>,
    pub description: Option<String>,
    pub location: Option<String>,
    pub website: Option<WebAddress>,
    pub icon: Option<EntryId>,
    pub email: Option<String>,
    pub published_at: Option<u64>,
    pub last_updated: Option<u64>,
    pub metadata: Option<Metadata>,
}

/// Names the record to deprecate and why.
pub struct DeprecateInput {
    pub base: ActionId,
    pub message: String,
}

/// Names the record whose deprecation to clear.
pub struct UndeprecateInput {
    pub base: ActionId,
}

/// The payload of a new publisher: caller-supplied fields, `now` for absent
/// timestamps, empty metadata when none is given, and no deprecation.
pub fn create_publisher(input: CreateInput, now: u64) -> (r: PublisherEntry)
    ensures
        r.name == input.name,
        r.location == input.location,
        r.website == input.website,
        r.editors_group_id == input.editors_group_id,
        r.published_at == match input.published_at {
            Some(t) => t,
            None => now,
        },
        r.last_updated == match input.last_updated {
            Some(t) => t,
            None => now,
        },
        input.metadata matches Some(m) ==> r.metadata == m,
        input.metadata is None ==> r.metadata.entries@.len() == 0,
        r.description == input.description,
        r.email == input.email,
        r.icon == input.icon,
        r.deprecation is None,
{
    PublisherEntry {
        name: input.name,
        location: input.location,
        website: input.website,
        editors_group_id: input.editors_group_id,
        published_at: match input.published_at {
            Some(t) => t,
            None => now,
        },
        last_updated: match input.last_updated {
            Some(t) => t,
            None => now,
        },
        metadata: match input.metadata {
            Some(m) => m,
            None => Metadata::new(),
        },
        description: input.description,
        email: input.email,
        icon: input.icon,
        deprecation: None,
    }
}

/// The payload of a publisher update: each requested property replaces the
/// current one, the rest carry over, and the owning group is re-pinned at
/// its latest revision `group_tip`.
pub fn update_publisher(current: PublisherEntry, props: UpdateProperties, group_tip: ActionId)
    -> (r: PublisherEntry)
    ensures
        r.name == match props.name {
            Some(v) => v,
            None => current.name,
        },
        r.description == match props.description {
            Some(v) => Some(v),
            None => current.description,
        },
        r.location == match props.location {
            Some(v) => v,
            None => current.location,
        },
        r.website == match props.website {
            Some(v) => v,
            None => current.website,
        },
        r.editors_group_id == (GroupRef {
            group_id: current.editors_group_id.group_id,
            pinned_revision: group_tip,
        }),
        r.icon == match props.icon {
            Some(v) => Some(v),
            None => current.icon,
        },
        r.email == match props.email {
            Some(v) => Some(v),
            None => current.email,
        },
        r.published_at == match props.published_at {
            Some(v) => v,
            None => current.published_at,
        },
        r.last_updated == match props.last_updated {
            Some(v) => v,
            None => current.last_updated,
        },
        r.metadata == match props.metadata {
            Some(v) => v,
            None => current.metadata,
        },
        r.deprecation == current.deprecation,
{
    PublisherEntry {
        name: match props.name {
            Some(v) => v,
            None => current.name,
        },
        description: match props.description {
            Some(v) => Some(v),
            None => current.description,
        },
        location: match props.location {
            Some(v) => v,
            None => current.location,
        },
        website: match props.website {
            Some(v) => v,
            None => current.website,
        },
        editors_group_id: GroupRef {
            group_id: current.editors_group_id.group_id,
            pinned_revision: group_tip,
        },
        icon: match props.icon {
            Some(v) => Some(v),
            None => current.icon,
        },
        email: match props.email {
            Some(v) => Some(v),
            None => current.email,
        },
        published_at: match props.published_at {
            Some(v) => v,
            None => current.published_at,
        },
        last_updated: match props.last_updated {
            Some(v) => v,
            None => current.last_updated,
        },
        metadata: match props.metadata {
            Some(v) => v,
            None => current.metadata,
        },
        deprecation: current.deprecation,
    }
}

/// The payload that deprecates a publisher: the deprecation notice is set
/// (with no recommended alternatives), every other field carries over, and
/// the owning group is re-pinned at its latest revision.
pub fn deprecate_publisher(current: PublisherEntry, message: String, group_tip: ActionId) -> (r:
    PublisherEntry)
    ensures
        r.deprecation matches Some(notice) && notice.message == message
            && notice.recommended_alternatives is None,
        r.editors_group_id == (GroupRef {
            group_id: current.editors_group_id.group_id,
            pinned_revision: group_tip,
        }),
        r.name == current.name,
        r.location == current.location,
        r.website == current.website,
        r.published_at == current.published_at,
        r.last_updated == current.last_updated,
        r.metadata == current.metadata,
        r.description == current.description,
        r.email == current.email,
        r.icon == current.icon,
{
    PublisherEntry {
        editors_group_id: GroupRef {
            group_id: current.editors_group_id.group_id,
            pinned_revision: group_tip,
        },
        deprecation: Some(
            DeprecationNotice { message, recommended_alternatives: None },
        ),
        ..current
    }
}

/// The payload that clears a publisher's deprecation: the un-deprecate
/// path.  Every other field carries over; the owning group is re-pinned at
/// its latest revision.
pub fn undeprecate_publisher(current: PublisherEntry, group_tip: ActionId) -> (r: PublisherEntry)
    ensures
        r.deprecation is None,
        r.editors_group_id == (GroupRef {
            group_id: current.editors_group_id.group_id,
            pinned_revision: group_tip,
        }),
        r.name == current.name,
        r.location == current.location,
        r.website == current.website,
        r.published_at == current.published_at,
        r.last_updated == current.last_updated,
        r.metadata == current.metadata,
        r.description == current.description,
        r.email == current.email,
        r.icon == current.icon,
{
    PublisherEntry {
        editors_group_id: GroupRef {
            group_id: current.editors_group_id.group_id,
            pinned_revision: group_tip,
        },
        deprecation: None,
        ..current
    }
}


/// The identities of the publishers in `publishers` that are not
/// deprecated, in order.
pub open spec fn spec_live_publisher_ids(publishers: Seq<Record<PublisherEntry>>) -> Seq<EntityId>
    decreases publishers.len(),
{
    if publishers.len() == 0 {
        Seq::empty()
    } else {
        let rest = spec_live_publisher_ids(publishers.drop_first());
        if publishers[0].content.deprecation is None {
            seq![publishers[0].id] + rest
        } else {
            rest
        }
    }
}

/// Every published publisher that is not deprecated, by identity, in
/// order.
pub fn get_all_publishers(publishers: &Vec<Record<PublisherEntry>>) -> (r: Vec<EntityId>)
    ensures
        r@ == spec_live_publisher_ids(publishers@),
{
    let mut live: Vec<EntityId> = Vec::new();
    let n = publishers.len();
    assert(publishers@.skip(0) =~= publishers@);
    for i in 0..n
        invariant
            n == publishers@.len(),
            spec_live_publisher_ids(publishers@) == live@ + spec_live_publisher_ids(
                publishers@.skip(i as int),
            ),
    {
        assert(publishers@.skip(i as int).drop_first() =~= publishers@.skip(i + 1));
        let ghost before = live@;
        if publishers[i].content.deprecation.is_none() {
            live.push(publishers[i].id);
            assert(before + spec_live_publisher_ids(publishers@.skip(i as int)) =~= live@
                + spec_live_publisher_ids(publishers@.skip(i + 1)));
        }
    }
    assert(spec_live_publisher_ids(publishers@.skip(n as int)) =~= Seq::<EntityId>::empty());
    assert(live@ + spec_live_publisher_ids(publishers@.skip(n as int)) =~= live@);
    live
}

/// The identities of the publishers in `publishers` owned by group
/// `group_id`, in order.
pub open spec fn spec_group_publisher_ids(
    publishers: Seq<Record<PublisherEntry>>,
    group_id: ActionId,
) -> Seq<EntityId>
    decreases publishers.len(),
{
    if publishers.len() == 0 {
        Seq::empty()
    } else {
        let rest = spec_group_publisher_ids(publishers.drop_first(), group_id);
        if publishers[0].content.editors_group_id.group_id == group_id {
            seq![publishers[0].id] + rest
        } else {
            rest
        }
    }
}

/// Every published publisher owned by group `group_id`, by identity, in
/// order.
pub fn get_publishers_for_group(publishers: &Vec<Record<PublisherEntry>>, group_id: ActionId)
    -> (r: Vec<EntityId>)
    ensures
        r@ == spec_group_publisher_ids(publishers@, group_id),
{
    let mut owned: Vec<EntityId> = Vec::new();
    let n = publishers.len();
    assert(publishers@.skip(0) =~= publishers@);
    for i in 0..n
        invariant
            n == publishers@.len(),
            spec_group_publisher_ids(publishers@, group_id) == owned@ + spec_group_publisher_ids(
                publishers@.skip(i as int),
                group_id,
            ),
    {
        assert(publishers@.skip(i as int).drop_first() =~= publishers@.skip(i + 1));
        let ghost before = owned@;
        if publishers[i].content.editors_group_id.group_id == group_id {
            owned.push(publishers[i].id);
            assert(before + spec_group_publisher_ids(publishers@.skip(i as int), group_id)
                =~= owned@ + spec_group_publisher_ids(publishers@.skip(i + 1), group_id));
        }
    }
    assert(spec_group_publisher_ids(publishers@.skip(n as int), group_id) =~= Seq::<
        EntityId,
    >::empty());
    assert(owned@ + spec_group_publisher_ids(publishers@.skip(n as int), group_id) =~= owned@);
    owned
}

/// Every published publisher owned by any of the groups in `group_ids` (an
/// agent's groups), by identity: the per-group results concatenated in the
/// groups' order.
pub open spec fn spec_agent_publisher_ids(
    publishers: Seq<Record<PublisherEntry>>,
    group_ids: Seq<ActionId>,
) -> Seq<EntityId>
    decreases group_ids.len(),
{
    if group_ids.len() == 0 {
        Seq::empty()
    } else {
        spec_group_publisher_ids(publishers, group_ids[0]) + spec_agent_publisher_ids(
            publishers,
            group_ids.drop_first(),
        )
    }
}

/// The publishers owned by each group of `group_ids` in turn, by identity.
pub fn get_publishers_for_agent(
    publishers: &Vec<Record<PublisherEntry>>,
    group_ids: &Vec<ActionId>,
) -> (r: Vec<EntityId>)
    ensures
        r@ == spec_agent_publisher_ids(publishers@, group_ids@),
{
    let mut collected: Vec<EntityId> = Vec::new();
    let n = group_ids.len();
    assert(group_ids@.skip(0) =~= group_ids@);
    for i in 0..n
        invariant
            n == group_ids@.len(),
            spec_agent_publisher_ids(publishers@, group_ids@) == collected@
                + spec_agent_publisher_ids(publishers@, group_ids@.skip(i as int)),
    {
        assert(group_ids@.skip(i as int).drop_first() =~= group_ids@.skip(i + 1));
        let ghost before = collected@;
        let mut found = get_publishers_for_group(publishers, group_ids[i]);
        let m = found.len();
        for k in 0..m
            invariant
                m == found@.len(),
                collected@ == before + found@.take(k as int),
        {
            collected.push(found[k]);
            assert(before + found@.take(k as int) + seq![found@[k as int]] =~= before
                + found@.take(k + 1));
        }
        assert(found@.take(m as int) =~= found@);
        assert(before + spec_agent_publisher_ids(publishers@, group_ids@.skip(i as int))
            =~= collected@ + spec_agent_publisher_ids(publishers@, group_ids@.skip(i + 1)));
    }
    assert(spec_agent_publisher_ids(publishers@, group_ids@.skip(n as int)) =~= Seq::<
        EntityId,
    >::empty());
    assert(collected@ + spec_agent_publisher_ids(publishers@, group_ids@.skip(n as int))
        =~= collected@);
    collected
}

} // verus!
