//! The engine's stated guarantees, proved once and for all inputs.
//!
//! Each proof function here states one law of the validation engine over
//! the same spec functions its contracts use, so the guarantees compose
//! with every caller's reasoning.

use vstd::prelude::*;

use crate::group::Group;
use crate::store::RecordView;
use crate::types::{AgentKey, AppEntry, AppVersionEntry, EntryTypes, GroupRef, PublisherEntry};
use crate::validation::create_entry::create_outcome;
use crate::validation::update_entry::{
    app_update_outcome, app_version_update_outcome, publisher_update_outcome,
    version_frozen_fields_kept,
};
use crate::validation::group_auth_outcome;
use crate::verdict::{Outcome, RejectionKind};

verus! {

/// The group reference a candidate entry claims: its owning group and pin.
/// A group anchor pins its group at the group's own identity, which is the
/// hash of the group's first revision.
pub open spec fn entry_group_ref(entry: EntryTypes) -> GroupRef {
    match entry {
        EntryTypes::Publisher(publisher) => publisher.editors_group_id,
        EntryTypes::App(app) => app.editors_group_id,
        EntryTypes::AppVersion(version) => version.editors_group_id,
        EntryTypes::ModeratorAction(action) => action.group_id,
        EntryTypes::GroupAnchor(anchor) => GroupRef {
            group_id: anchor.group_id,
            pinned_revision: anchor.group_id,
        },
    }
}

/// The direct author field a candidate entry carries, for the variants that
/// still have one; group-owned variants delegate authorship entirely to
/// membership.
pub open spec fn entry_claimed_author(entry: EntryTypes) -> Option<AgentKey> {
    match entry {
        EntryTypes::AppVersion(version) => Some(version.author),
        EntryTypes::ModeratorAction(action) => Some(action.author),
        _ => None,
    }
}

/// Whether the structural check of a creation passes: the claimed author,
/// where the variant carries one, is the action's verified signer.
pub open spec fn create_structurally_sound(entry: EntryTypes, author: AgentKey) -> bool {
    match entry_claimed_author(entry) {
        Some(claimed) => claimed == author,
        None => true,
    }
}

/// Authorship law, for every create mutation whose structural check passes
/// and whose group reference resolves to a real pinned revision: if the
/// signer is a contributor of the referenced group at the pinned revision,
/// the structural and authorization checks pass (a rejection can then only
/// come from a later rule, never as an authorization failure); if not, the
/// creation is rejected with an authorization error.
pub proof fn lemma_create_authorship(
    view: RecordView,
    entry: EntryTypes,
    author: AgentKey,
    group: Group,
)
    requires
        create_structurally_sound(entry, author),
        view.spec_group(entry_group_ref(entry).group_id) == Some(group),
        group.spec_has_revision(entry_group_ref(entry).pinned_revision),
    ensures
        group.spec_is_contributor_at(entry_group_ref(entry).pinned_revision, author)
            ==> group_auth_outcome(view, entry_group_ref(entry), author) == Outcome::Admit
            && create_outcome(view, entry, author) != Outcome::Reject(
            RejectionKind::AuthorizationError,
        ) && create_outcome(view, entry, author) != Outcome::Reject(
            RejectionKind::StructuralError,
        ),
        !group.spec_is_contributor_at(entry_group_ref(entry).pinned_revision, author)
            ==> create_outcome(view, entry, author) == Outcome::Reject(
            RejectionKind::AuthorizationError,
        ),
{
}

/// Pin-validity law for creations: a pinned revision that is not part of
/// the referenced group's revision chain is rejected as a referential
/// error, regardless of membership, provided the structural check passes.
pub proof fn lemma_create_pin_validity(
    view: RecordView,
    entry: EntryTypes,
    author: AgentKey,
    group: Group,
)
    requires
        create_structurally_sound(entry, author),
        view.spec_group(entry_group_ref(entry).group_id) == Some(group),
        !group.spec_has_revision(entry_group_ref(entry).pinned_revision),
    ensures
        create_outcome(view, entry, author) == Outcome::Reject(RejectionKind::ReferentialError),
{
}

/// Pin-validity law for publisher updates: with the owning group kept and
/// the deprecation rule satisfied, a fabricated pin is rejected as a
/// referential error regardless of membership.  (An update that also moves
/// the record to another group, or edits a deprecated record, is rejected
/// for that earlier reason instead.)
pub proof fn lemma_publisher_update_pin_validity(
    view: RecordView,
    entry: PublisherEntry,
    prev: PublisherEntry,
    author: AgentKey,
    group: Group,
)
    requires
        entry.editors_group_id.group_id == prev.editors_group_id.group_id,
        !(prev.deprecation is Some && entry.deprecation is Some),
        view.spec_group(entry.editors_group_id.group_id) == Some(group),
        !group.spec_has_revision(entry.editors_group_id.pinned_revision),
    ensures
        publisher_update_outcome(view, entry, prev, author) == Outcome::Reject(
            RejectionKind::ReferentialError,
        ),
{
}

/// Pin-validity law for app updates, as for publishers.
pub proof fn lemma_app_update_pin_validity(
    view: RecordView,
    entry: AppEntry,
    prev: AppEntry,
    author: AgentKey,
    group: Group,
)
    requires
        entry.editors_group_id.group_id == prev.editors_group_id.group_id,
        !(prev.deprecation is Some && entry.deprecation is Some),
        view.spec_group(entry.editors_group_id.group_id) == Some(group),
        !group.spec_has_revision(entry.editors_group_id.pinned_revision),
    ensures
        app_update_outcome(view, entry, prev, author) == Outcome::Reject(
            RejectionKind::ReferentialError,
        ),
{
}

/// Pin-validity law for app-version updates: with the author binding and
/// the owning group kept, a fabricated pin is rejected as a referential
/// error regardless of membership.
pub proof fn lemma_app_version_update_pin_validity(
    view: RecordView,
    entry: AppVersionEntry,
    prev: AppVersionEntry,
    author: AgentKey,
    group: Group,
)
    requires
        entry.author == author,
        prev.author == author,
        entry.editors_group_id.group_id == prev.editors_group_id.group_id,
        view.spec_group(entry.editors_group_id.group_id) == Some(group),
        !group.spec_has_revision(entry.editors_group_id.pinned_revision),
    ensures
        app_version_update_outcome(view, entry, prev, author) == Outcome::Reject(
            RejectionKind::ReferentialError,
        ),
{
}

/// Write-once law for app-version updates whose structural and
/// authorization checks pass: changing `for_app`, the external-resource
/// reference or hash, or any bundle digest is rejected as an immutability
/// error; keeping every write-once field identical (whatever happens to
/// `version`, the timestamps or the metadata) is admitted.
pub proof fn lemma_app_version_write_once(
    view: RecordView,
    entry: AppVersionEntry,
    prev: AppVersionEntry,
    author: AgentKey,
    group: Group,
)
    requires
        entry.author == author,
        prev.author == author,
        entry.editors_group_id.group_id == prev.editors_group_id.group_id,
        view.spec_group(entry.editors_group_id.group_id) == Some(group),
        group.spec_has_revision(entry.editors_group_id.pinned_revision),
        group.spec_is_contributor_at(entry.editors_group_id.pinned_revision, author),
    ensures
        !version_frozen_fields_kept(entry, prev) ==> app_version_update_outcome(
            view,
            entry,
            prev,
            author,
        ) == Outcome::Reject(RejectionKind::ImmutabilityError),
        version_frozen_fields_kept(entry, prev) ==> app_version_update_outcome(
            view,
            entry,
            prev,
            author,
        ) == Outcome::Admit,
{
}

/// Deprecation one-way law for publishers: an update of an already
/// deprecated record that leaves a deprecation set is rejected as a
/// lifecycle error; one that clears it, by an author who is a contributor
/// at a real pinned revision with an admissible icon, is admitted.
pub proof fn lemma_publisher_deprecation_one_way(
    view: RecordView,
    entry: PublisherEntry,
    prev: PublisherEntry,
    author: AgentKey,
    group: Group,
)
    requires
        entry.editors_group_id.group_id == prev.editors_group_id.group_id,
        prev.deprecation is Some,
        view.spec_group(entry.editors_group_id.group_id) == Some(group),
    ensures
        entry.deprecation is Some ==> publisher_update_outcome(view, entry, prev, author)
            == Outcome::Reject(RejectionKind::LifecycleError),
        entry.deprecation is None && group.spec_has_revision(entry.editors_group_id.pinned_revision)
            && group.spec_is_contributor_at(entry.editors_group_id.pinned_revision, author)
            && crate::validation::opt_icon_outcome(view, entry.icon) == Outcome::Admit
            ==> publisher_update_outcome(view, entry, prev, author) == Outcome::Admit,
{
}

/// Deprecation one-way law for apps, as for publishers.
pub proof fn lemma_app_deprecation_one_way(
    view: RecordView,
    entry: AppEntry,
    prev: AppEntry,
    author: AgentKey,
    group: Group,
)
    requires
        entry.editors_group_id.group_id == prev.editors_group_id.group_id,
        prev.deprecation is Some,
        view.spec_group(entry.editors_group_id.group_id) == Some(group),
    ensures
        entry.deprecation is Some ==> app_update_outcome(view, entry, prev, author)
            == Outcome::Reject(RejectionKind::LifecycleError),
        entry.deprecation is None && group.spec_has_revision(entry.editors_group_id.pinned_revision)
            && group.spec_is_contributor_at(entry.editors_group_id.pinned_revision, author)
            && crate::validation::icon_outcome(view, entry.icon) == Outcome::Admit
            ==> app_update_outcome(view, entry, prev, author) == Outcome::Admit,
{
}

} // verus!
