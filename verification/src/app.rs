//! App lifecycle: building creations and updates, and catalog queries.
//!
//! Creating an app may leave the owning group implicit: it is then taken
//! from the app's publisher, pinned at that group's latest revision (the
//! caller resolves both and passes the result in).  Queries over the
//! published view return record identities, leaving the records themselves
//! where they are.

use vstd::prelude::*;

use crate::store::Record;
use crate::types::{
    ActionId, AppEntry, DeprecationNotice, EntityId, EntryId, GroupRef, Metadata, PublisherEntry,
    HRL,
};

verus! {

/// What a caller supplies to create an app.  With no explicit owning group
/// the publisher's group, pinned at its latest revision, is used.
pub struct CreateInput {
    pub title: String,
    pub subtitle: String,
    pub description: String,
    pub icon: EntryId,
    pub publisher: EntityId,
    pub apphub_hrl: HRL,
    pub apphub_hrl_hash: EntryId,
    pub editors_group_id: Option<GroupRef>,
    pub published_at: Option<u64>,
    pub last_updated: Option<u64>,
    pub metadata: Option<Metadata>,
}

/// The property changes an app update may request; absent properties keep
/// the current revision's value.
pub struct UpdateProperties {
    pub title: Option<String>,
    pub subtitle: Option<String>,
    pub description: Option<String>,
    pub icon: Option<EntryId>,
    pub apphub_hrl: Option<HRL>,
    pub apphub_hrl_hash: Option<EntryId>,
    pub published_at: Option<u64>,
    pub last_updated: Option<u64>,
    pub metadata: Option<Metadata>,
}

/// The payload of a new app: caller-supplied fields, the publisher's group
/// (`publisher_group`, resolved by the caller and pinned at that group's
/// tip) when none is given, `now` for absent timestamps, and no
/// deprecation.
pub fn create_app(input: CreateInput, publisher_group: GroupRef, now: u64) -> (r: AppEntry)
    ensures
        r.title == input.title,
        r.subtitle == input.subtitle,
        r.description == input.description,
        r.icon == input.icon,
        r.publisher == input.publisher,
        r.apphub_hrl == input.apphub_hrl,
        r.apphub_hrl_hash == input.apphub_hrl_hash,
        r.editors_group_id == match input.editors_group_id {
            Some(gref) => gref,
            None => publisher_group,
        },
        r.published_at == match input.published_at {
            Some(t) => t,
            None => now,
        },
        r.last_updated == match input.last_updated {
            Some(t) => t,
            None => now,
        },
        input.metadata matches Some(m) ==> r.metadata == m,
        input.metadata is None ==> r.metadata.entries@.len() == 0,
        r.deprecation is None,
{
    AppEntry {
        title: input.title,
        subtitle: input.subtitle,
        description: input.description,
        icon: input.icon,
        publisher: input.publisher,
        apphub_hrl: input.apphub_hrl,
        apphub_hrl_hash: input.apphub_hrl_hash,
        editors_group_id: match input.editors_group_id {
            Some(gref) => gref,
            None => publisher_group,
        },
        published_at: match input.published_at {
            Some(t) => t,
            None => now,
        },
        last_updated: match input.last_updated {
            Some(t) => t,
            None => now,
        },
        metadata: match input.metadata {
            Some(m) => m,
            None => Metadata::new(),
        },
        deprecation: None,
    }
}

/// The payload of an app update: each requested property replaces the
/// current one, the rest carry over, and the owning group is re-pinned at
/// its latest revision `group_tip`.
pub fn update_app(current: AppEntry, props: UpdateProperties, group_tip: ActionId) -> (r: AppEntry)
    ensures
        r.title == match props.title {
            Some(v) => v,
            None => current.title,
        },
        r.subtitle == match props.subtitle {
            Some(v) => v,
            None => current.subtitle,
        },
        r.description == match props.description {
            Some(v) => v,
            None => current.description,
        },
        r.icon == match props.icon {
            Some(v) => v,
            None => current.icon,
        },
        r.apphub_hrl == match props.apphub_hrl {
            Some(v) => v,
            None => current.apphub_hrl,
        },
        r.apphub_hrl_hash == match props.apphub_hrl_hash {
            Some(v) => v,
            None => current.apphub_hrl_hash,
        },
        r.editors_group_id == (GroupRef {
            group_id: current.editors_group_id.group_id,
            pinned_revision: group_tip,
        }),
        r.publisher == current.publisher,
        r.published_at == match props.published_at {
            Some(v) => v,
            None => current.published_at,
        },
        r.last_updated == match props.last_updated {
            Some(v) => v,
            None => current.last_updated,
        },
        r.metadata == match props.metadata {
            Some(v) => v,
            None => current.metadata,
        },
        r.deprecation == current.deprecation,
{
    AppEntry {
        title: match props.title {
            Some(v) => v,
            None => current.title,
        },
        subtitle: match props.subtitle {
            Some(v) => v,
            None => current.subtitle,
        },
        description: match props.description {
            Some(v) => v,
            None => current.description,
        },
        icon: match props.icon {
            Some(v) => v,
            None => current.icon,
        },
        apphub_hrl: match props.apphub_hrl {
            Some(v) => v,
            None => current.apphub_hrl,
        },
        apphub_hrl_hash: match props.apphub_hrl_hash {
            Some(v) => v,
            None => current.apphub_hrl_hash,
        },
        editors_group_id: GroupRef {
            group_id: current.editors_group_id.group_id,
            pinned_revision: group_tip,
        },
        publisher: current.publisher,
        published_at: match props.published_at {
            Some(v) => v,
            None => current.published_at,
        },
        last_updated: match props.last_updated {
            Some(v) => v,
            None => current.last_updated,
        },
        metadata: match props.metadata {
            Some(v) => v,
            None => current.metadata,
        },
        deprecation: current.deprecation,
    }
}

/// The payload that deprecates an app, re-pinning its group at the tip.
pub fn deprecate_app(current: AppEntry, message: String, group_tip: ActionId) -> (r: AppEntry)
    ensures
        r.deprecation matches Some(notice) && notice.message == message
            && notice.recommended_alternatives is None,
        r.editors_group_id == (GroupRef {
            group_id: current.editors_group_id.group_id,
            pinned_revision: group_tip,
        }),
        r.title == current.title,
        r.subtitle == current.subtitle,
        r.description == current.description,
        r.icon == current.icon,
        r.publisher == current.publisher,
        r.apphub_hrl == current.apphub_hrl,
        r.apphub_hrl_hash == current.apphub_hrl_hash,
        r.published_at == current.published_at,
        r.last_updated == current.last_updated,
        r.metadata == current.metadata,
{
    AppEntry {
        editors_group_id: GroupRef {
            group_id: current.editors_group_id.group_id,
            pinned_revision: group_tip,
        },
        deprecation: Some(
            DeprecationNotice { message, recommended_alternatives: None },
        ),
        ..current
    }
}

/// The payload that clears an app's deprecation, re-pinning its group at
/// the tip.
pub fn undeprecate_app(current: AppEntry, group_tip: ActionId) -> (r: AppEntry)
    ensures
        r.deprecation is None,
        r.editors_group_id == (GroupRef {
            group_id: current.editors_group_id.group_id,
            pinned_revision: group_tip,
        }),
        r.title == current.title,
        r.subtitle == current.subtitle,
        r.description == current.description,
        r.icon == current.icon,
        r.publisher == current.publisher,
        r.apphub_hrl == current.apphub_hrl,
        r.apphub_hrl_hash == current.apphub_hrl_hash,
        r.published_at == current.published_at,
        r.last_updated == current.last_updated,
        r.metadata == current.metadata,
{
    AppEntry {
        editors_group_id: GroupRef {
            group_id: current.editors_group_id.group_id,
            pinned_revision: group_tip,
        },
        deprecation: None,
        ..current
    }
}

/// The identities of the apps in `apps` that are not deprecated, in order.
pub open spec fn spec_live_app_ids(apps: Seq<Record<AppEntry>>) -> Seq<EntityId>
    decreases apps.len(),
{
    if apps.len() == 0 {
        Seq::empty()
    } else {
        let rest = spec_live_app_ids(apps.drop_first());
        if apps[0].content.deprecation is None {
            seq![apps[0].id] + rest
        } else {
            rest
        }
    }
}

/// Every published app that is not deprecated, by identity, in order.
pub fn get_all_apps(apps: &Vec<Record<AppEntry>>) -> (r: Vec<EntityId>)
    ensures
        r@ == spec_live_app_ids(apps@),
{
    let mut live: Vec<EntityId> = Vec::new();
    let n = apps.len();
    assert(apps@.skip(0) =~= apps@);
    for i in 0..n
        invariant
            n == apps@.len(),
            spec_live_app_ids(apps@) == live@ + spec_live_app_ids(apps@.skip(i as int)),
    {
        assert(apps@.skip(i as int).drop_first() =~= apps@.skip(i + 1));
        let ghost before = live@;
        if apps[i].content.deprecation.is_none() {
            live.push(apps[i].id);
            assert(before + spec_live_app_ids(apps@.skip(i as int)) =~= live@ + spec_live_app_ids(
                apps@.skip(i + 1),
            ));
        }
    }
    assert(spec_live_app_ids(apps@.skip(n as int)) =~= Seq::<EntityId>::empty());
    assert(live@ + spec_live_app_ids(apps@.skip(n as int)) =~= live@);
    live
}

/// The identities of the apps in `apps` owned by group `group_id`, in
/// order.
pub open spec fn spec_group_app_ids(apps: Seq<Record<AppEntry>>, group_id: ActionId) -> Seq<
    EntityId,
>
    decreases apps.len(),
{
    if apps.len() == 0 {
        Seq::empty()
    } else {
        let rest = spec_group_app_ids(apps.drop_first(), group_id);
        if apps[0].content.editors_group_id.group_id == group_id {
            seq![apps[0].id] + rest
        } else {
            rest
        }
    }
}

/// Every published app owned by group `group_id`, by identity, in order.
pub fn get_apps_for_group(apps: &Vec<Record<AppEntry>>, group_id: ActionId) -> (r: Vec<EntityId>)
    ensures
        r@ == spec_group_app_ids(apps@, group_id),
{
    let mut owned: Vec<EntityId> = Vec::new();
    let n = apps.len();
    assert(apps@.skip(0) =~= apps@);
    for i in 0..n
        invariant
            n == apps@.len(),
            spec_group_app_ids(apps@, group_id) == owned@ + spec_group_app_ids(
                apps@.skip(i as int),
                group_id,
            ),
    {
        assert(apps@.skip(i as int).drop_first() =~= apps@.skip(i + 1));
        let ghost before = owned@;
        if apps[i].content.editors_group_id.group_id == group_id {
            owned.push(apps[i].id);
            assert(before + spec_group_app_ids(apps@.skip(i as int), group_id) =~= owned@
                + spec_group_app_ids(apps@.skip(i + 1), group_id));
        }
    }
    assert(spec_group_app_ids(apps@.skip(n as int), group_id) =~= Seq::<EntityId>::empty());
    assert(owned@ + spec_group_app_ids(apps@.skip(n as int), group_id) =~= owned@);
    owned
}

/// Every published app owned by any of the groups in `group_ids` (an
/// agent's groups), by identity: the per-group results concatenated in the
/// groups' order.
pub open spec fn spec_agent_app_ids(apps: Seq<Record<AppEntry>>, group_ids: Seq<ActionId>) -> Seq<
    EntityId,
>
    decreases group_ids.len(),
{
    if group_ids.len() == 0 {
        Seq::empty()
    } else {
        spec_group_app_ids(apps, group_ids[0]) + spec_agent_app_ids(
            apps,
            group_ids.drop_first(),
        )
    }
}

/// The apps owned by each group of `group_ids` in turn, by identity.
pub fn get_apps_for_agent(apps: &Vec<Record<AppEntry>>, group_ids: &Vec<ActionId>) -> (r: Vec<
    EntityId,
>)
    ensures
        r@ == spec_agent_app_ids(apps@, group_ids@),
{
    let mut collected: Vec<EntityId> = Vec::new();
    let n = group_ids.len();
    assert(group_ids@.skip(0) =~= group_ids@);
    for i in 0..n
        invariant
            n == group_ids@.len(),
            spec_agent_app_ids(apps@, group_ids@) == collected@ + spec_agent_app_ids(
                apps@,
                group_ids@.skip(i as int),
            ),
    {
        assert(group_ids@.skip(i as int).drop_first() =~= group_ids@.skip(i + 1));
        let ghost before = collected@;
        let mut found = get_apps_for_group(apps, group_ids[i]);
        let m = found.len();
        for k in 0..m
            invariant
                m == found@.len(),
                collected@ == before + found@.take(k as int),
        {
            collected.push(found[k]);
            assert(before + found@.take(k as int) + seq![found@[k as int]] =~= before
                + found@.take(k + 1));
        }
        assert(found@.take(m as int) =~= found@);
        assert(before + spec_agent_app_ids(apps@, group_ids@.skip(i as int)) =~= collected@
            + spec_agent_app_ids(apps@, group_ids@.skip(i + 1)));
    }
    assert(spec_agent_app_ids(apps@, group_ids@.skip(n as int)) =~= Seq::<EntityId>::empty());
    assert(collected@ + spec_agent_app_ids(apps@, group_ids@.skip(n as int)) =~= collected@);
    collected
}


/// Every published app owned by the given publisher's group, by identity:
/// apps of a publisher are the apps of the group that owns it.  `None`
/// when the publisher is not in the view.
pub fn get_apps_for_publisher(
    apps: &Vec<Record<AppEntry>>,
    publishers: &Vec<Record<PublisherEntry>>,
    for_publisher: EntityId,
) -> (r: Option<Vec<EntityId>>)
    ensures
        match r {
            Some(ids) => {
                &&& crate::store::spec_find_record(publishers@, for_publisher) matches Some(record)
                &&& ids@ == spec_group_app_ids(apps@, record.content.editors_group_id.group_id)
            },
            None => crate::store::spec_find_record(publishers@, for_publisher) is None,
        },
{
    let publisher = match crate::store::find_record(publishers, for_publisher) {
        Some(record) => record,
        None => {
            return None;
        },
    };
    Some(get_apps_for_group(apps, publisher.content.editors_group_id.group_id))
}

} // verus!
