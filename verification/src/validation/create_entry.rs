//! Admissibility of entry creations, per entity variant.

use vstd::prelude::*;

use crate::store::RecordView;
use crate::types::{
    AgentKey, AppEntry, AppVersionEntry, EntryTypes, GroupAnchorEntry, GroupRef,
    ModeratorActionEntry, PublisherEntry,
};
use crate::validation::{
    author_match_outcome, check_group_auth, group_auth_outcome, icon_outcome, opt_icon_outcome,
    validate_common_fields_create, validate_icon_field,
};
use crate::verdict::{
    first_failure, outcome_of, reject, Outcome, RejectionKind, ValidationResult, Verdict,
};

verus! {

/// The cross-entity rule for app creations: the referenced publisher must be
/// published, and its owning group must equal the app's own group (an app
/// cannot claim membership in a different group than its publisher).
pub open spec fn app_publisher_linkage_outcome(view: RecordView, entry: AppEntry) -> Outcome {
    match view.spec_publisher(entry.publisher) {
        None => Outcome::Unresolved,
        Some(publisher) => if publisher.content.editors_group_id.group_id
            != entry.editors_group_id.group_id {
            Outcome::Reject(RejectionKind::ReferentialError)
        } else {
            Outcome::Admit
        },
    }
}

/// The cross-entity rule for app-version creations: the referenced app must
/// be published, and its owning group must equal the version's own group.
pub open spec fn version_app_linkage_outcome(view: RecordView, entry: AppVersionEntry) -> Outcome {
    match view.spec_app(entry.for_app) {
        None => Outcome::Unresolved,
        Some(app) => if app.content.editors_group_id.group_id != entry.editors_group_id.group_id {
            Outcome::Reject(RejectionKind::ReferentialError)
        } else {
            Outcome::Admit
        },
    }
}

/// Admissibility of a publisher creation: group authorization, then the
/// icon ceiling when an icon is present.
pub open spec fn publisher_create_outcome(
    view: RecordView,
    entry: PublisherEntry,
    author: AgentKey,
) -> Outcome {
    first_failure(
        group_auth_outcome(view, entry.editors_group_id, author),
        opt_icon_outcome(view, entry.icon),
    )
}

/// Admissibility of an app creation: group authorization, the publisher
/// linkage, then the icon ceiling.
pub open spec fn app_create_outcome(view: RecordView, entry: AppEntry, author: AgentKey) -> Outcome {
    first_failure(
        group_auth_outcome(view, entry.editors_group_id, author),
        first_failure(
            app_publisher_linkage_outcome(view, entry),
            icon_outcome(view, entry.icon),
        ),
    )
}

/// Admissibility of an app-version creation: the structural author check
/// (this variant carries a direct author field), group authorization, then
/// the app linkage.
pub open spec fn app_version_create_outcome(
    view: RecordView,
    entry: AppVersionEntry,
    author: AgentKey,
) -> Outcome {
    first_failure(
        author_match_outcome(entry.author, author),
        first_failure(
            group_auth_outcome(view, entry.editors_group_id, author),
            version_app_linkage_outcome(view, entry),
        ),
    )
}

/// Admissibility of a moderator-action creation: the structural author
/// check, then membership in the claimed group at the claimed revision.
pub open spec fn moderator_action_create_outcome(
    view: RecordView,
    entry: ModeratorActionEntry,
    author: AgentKey,
) -> Outcome {
    first_failure(
        author_match_outcome(entry.author, author),
        group_auth_outcome(view, entry.group_id, author),
    )
}

/// Admissibility of a group-anchor creation: the author must be a
/// contributor of the claimed group; the anchor pins the group at its first
/// revision, which is the group's own identity.
pub open spec fn group_anchor_create_outcome(
    view: RecordView,
    entry: GroupAnchorEntry,
    author: AgentKey,
) -> Outcome {
    group_auth_outcome(
        view,
        GroupRef { group_id: entry.group_id, pinned_revision: entry.group_id },
        author,
    )
}

/// Admissibility of one entry creation, dispatched by variant.
pub open spec fn create_outcome(view: RecordView, entry: EntryTypes, author: AgentKey) -> Outcome {
    match entry {
        EntryTypes::Publisher(publisher) => publisher_create_outcome(view, publisher, author),
        EntryTypes::App(app) => app_create_outcome(view, app, author),
        EntryTypes::AppVersion(version) => app_version_create_outcome(view, version, author),
        EntryTypes::ModeratorAction(action) => moderator_action_create_outcome(
            view,
            action,
            author,
        ),
        EntryTypes::GroupAnchor(anchor) => group_anchor_create_outcome(view, anchor, author),
    }
}

/// Validates one entry creation signed by `author` against the published
/// view.
pub fn validation(entry: &EntryTypes, author: AgentKey, view: &RecordView) -> (r: ValidationResult)
    requires
        view.wf(),
    ensures
        outcome_of(r) == create_outcome(*view, *entry, author),
{
    match entry {
        EntryTypes::Publisher(publisher) => {
            match check_group_auth(view, publisher.editors_group_id, author)? {
                Verdict::Invalid(rejection) => {
                    return Ok(Verdict::Invalid(rejection));
                },
                Verdict::Valid => {},
            }
            match publisher.icon {
                Some(address) => validate_icon_field(view, address),
                None => Ok(Verdict::Valid),
            }
        },
        EntryTypes::App(app) => {
            match check_group_auth(view, app.editors_group_id, author)? {
                Verdict::Invalid(rejection) => {
                    return Ok(Verdict::Invalid(rejection));
                },
                Verdict::Valid => {},
            }
            let publisher = match view.publisher(app.publisher) {
                Some(record) => record,
                None => {
                    return Err(
                        crate::verdict::unresolved("Referenced publisher could not be resolved"),
                    );
                },
            };
            if publisher.content.editors_group_id.group_id != app.editors_group_id.group_id {
                return Ok(
                    reject(
                        RejectionKind::ReferentialError,
                        "App's group does not match its publisher's group",
                    ),
                );
            }
            validate_icon_field(view, app.icon)
        },
        EntryTypes::AppVersion(version) => {
            match validate_common_fields_create(version.author, author) {
                Verdict::Invalid(rejection) => {
                    return Ok(Verdict::Invalid(rejection));
                },
                Verdict::Valid => {},
            }
            match check_group_auth(view, version.editors_group_id, author)? {
                Verdict::Invalid(rejection) => {
                    return Ok(Verdict::Invalid(rejection));
                },
                Verdict::Valid => {},
            }
            let app = match view.app(version.for_app) {
                Some(record) => record,
                None => {
                    return Err(
                        crate::verdict::unresolved("Referenced app could not be resolved"),
                    );
                },
            };
            if app.content.editors_group_id.group_id != version.editors_group_id.group_id {
                return Ok(
                    reject(
                        RejectionKind::ReferentialError,
                        "App version's group does not match its app's group",
                    ),
                );
            }
            Ok(Verdict::Valid)
        },
        EntryTypes::ModeratorAction(action) => {
            match validate_common_fields_create(action.author, author) {
                Verdict::Invalid(rejection) => {
                    return Ok(Verdict::Invalid(rejection));
                },
                Verdict::Valid => {},
            }
            check_group_auth(view, action.group_id, author)
        },
        EntryTypes::GroupAnchor(anchor) => {
            check_group_auth(
                view,
                GroupRef { group_id: anchor.group_id, pinned_revision: anchor.group_id },
                author,
            )
        },
    }
}

} // verus!
