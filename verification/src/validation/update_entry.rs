//! Admissibility of entry updates, per entity variant.
//!
//! Updates carry the candidate payload and the previous revision's payload;
//! the substrate resolves the previous entry hash before calling in.

use vstd::prelude::*;

use crate::store::RecordView;
use crate::types::{
    AgentKey, AppEntry, AppVersionEntry, EntryTypes, GroupAnchorEntry, GroupRef,
    ModeratorActionEntry, PublisherEntry,
};
use crate::validation::{
    author_chain_outcome, author_match_outcome, check_group_auth, group_auth_outcome,
    icon_outcome, opt_icon_outcome, validate_common_fields_create, validate_common_fields_update,
    validate_icon_field,
};
use crate::verdict::{
    first_failure, outcome_of, reject, Outcome, RejectionKind, ValidationResult, Verdict,
};

verus! {

/// The invariant that a record can never move to a different owning group:
/// the group identity of the reference is write-once.
pub open spec fn same_group_outcome(entry_gref: GroupRef, prev_gref: GroupRef) -> Outcome {
    if entry_gref.group_id != prev_gref.group_id {
        Outcome::Reject(RejectionKind::ImmutabilityError)
    } else {
        Outcome::Admit
    }
}

/// The deprecation rule: a record that is already deprecated can only be
/// updated by clearing the deprecation (the un-deprecate path); an update
/// that leaves a deprecation set is rejected.
pub open spec fn deprecation_outcome<T>(entry_deprecation: Option<T>, prev_deprecation: Option<
    T,
>) -> Outcome {
    if prev_deprecation is Some && entry_deprecation is Some {
        Outcome::Reject(RejectionKind::LifecycleError)
    } else {
        Outcome::Admit
    }
}

/// Admissibility of a publisher update: the group identity is write-once,
/// deprecation is one-way per edit, the author must be a contributor at the
/// new pin (itself verified), and the icon ceiling is re-checked.
pub open spec fn publisher_update_outcome(
    view: RecordView,
    entry: PublisherEntry,
    prev: PublisherEntry,
    author: AgentKey,
) -> Outcome {
    first_failure(
        same_group_outcome(entry.editors_group_id, prev.editors_group_id),
        first_failure(
            deprecation_outcome(entry.deprecation, prev.deprecation),
            first_failure(
                group_auth_outcome(view, entry.editors_group_id, author),
                opt_icon_outcome(view, entry.icon),
            ),
        ),
    )
}

/// Admissibility of an app update: as for publishers, with a mandatory icon.
pub open spec fn app_update_outcome(
    view: RecordView,
    entry: AppEntry,
    prev: AppEntry,
    author: AgentKey,
) -> Outcome {
    first_failure(
        same_group_outcome(entry.editors_group_id, prev.editors_group_id),
        first_failure(
            deprecation_outcome(entry.deprecation, prev.deprecation),
            first_failure(
                group_auth_outcome(view, entry.editors_group_id, author),
                icon_outcome(view, entry.icon),
            ),
        ),
    )
}

/// Whether an app-version update leaves every write-once field unchanged:
/// `for_app`, the external-resource reference and hash, and the bundle
/// digest triple.
pub open spec fn version_frozen_fields_kept(entry: AppVersionEntry, prev: AppVersionEntry) -> bool {
    &&& entry.for_app == prev.for_app
    &&& entry.apphub_hrl == prev.apphub_hrl
    &&& entry.apphub_hrl_hash == prev.apphub_hrl_hash
    &&& entry.bundle_hashes.spec_same(prev.bundle_hashes)
}

/// Admissibility of an app-version update: the author binding must hold
/// across the chain, the group identity is write-once, the author must be a
/// contributor at the new pin, and the write-once fields must be identical
/// to the previous revision.
pub open spec fn app_version_update_outcome(
    view: RecordView,
    entry: AppVersionEntry,
    prev: AppVersionEntry,
    author: AgentKey,
) -> Outcome {
    first_failure(
        author_chain_outcome(entry.author, prev.author, author),
        first_failure(
            same_group_outcome(entry.editors_group_id, prev.editors_group_id),
            first_failure(
                group_auth_outcome(view, entry.editors_group_id, author),
                if !version_frozen_fields_kept(entry, prev) {
                    Outcome::Reject(RejectionKind::ImmutabilityError)
                } else {
                    Outcome::Admit
                },
            ),
        ),
    )
}

/// Admissibility of a moderator-action update: the structural author check,
/// then membership in the claimed group at the claimed revision.
pub open spec fn moderator_action_update_outcome(
    view: RecordView,
    entry: ModeratorActionEntry,
    author: AgentKey,
) -> Outcome {
    first_failure(
        author_match_outcome(entry.author, author),
        group_auth_outcome(view, entry.group_id, author),
    )
}

/// Admissibility of a group-anchor update: membership in the claimed group.
pub open spec fn group_anchor_update_outcome(
    view: RecordView,
    entry: GroupAnchorEntry,
    author: AgentKey,
) -> Outcome {
    group_auth_outcome(
        view,
        GroupRef { group_id: entry.group_id, pinned_revision: entry.group_id },
        author,
    )
}

/// Admissibility of one entry update, dispatched by variant.  A candidate
/// whose variant differs from its previous revision's is structurally
/// malformed.
pub open spec fn update_outcome(
    view: RecordView,
    entry: EntryTypes,
    prev: EntryTypes,
    author: AgentKey,
) -> Outcome {
    match (entry, prev) {
        (EntryTypes::Publisher(e), EntryTypes::Publisher(p)) => publisher_update_outcome(
            view,
            e,
            p,
            author,
        ),
        (EntryTypes::App(e), EntryTypes::App(p)) => app_update_outcome(view, e, p, author),
        (EntryTypes::AppVersion(e), EntryTypes::AppVersion(p)) => app_version_update_outcome(
            view,
            e,
            p,
            author,
        ),
        (EntryTypes::ModeratorAction(e), EntryTypes::ModeratorAction(_)) => {
            moderator_action_update_outcome(view, e, author)
        },
        (EntryTypes::GroupAnchor(e), EntryTypes::GroupAnchor(_)) => group_anchor_update_outcome(
            view,
            e,
            author,
        ),
        _ => Outcome::Reject(RejectionKind::StructuralError),
    }
}

/// Validates one entry update signed by `author`, given the previous
/// revision's payload, against the published view.
pub fn validation(entry: &EntryTypes, author: AgentKey, prev: &EntryTypes, view: &RecordView) -> (r:
    ValidationResult)
    requires
        view.wf(),
    ensures
        outcome_of(r) == update_outcome(*view, *entry, *prev, author),
{
    match (entry, prev) {
        (EntryTypes::Publisher(e), EntryTypes::Publisher(p)) => {
            if e.editors_group_id.group_id != p.editors_group_id.group_id {
                return Ok(
                    reject(
                        RejectionKind::ImmutabilityError,
                        "A record cannot be moved to a different owning group",
                    ),
                );
            }
            if p.deprecation.is_some() && e.deprecation.is_some() {
                return Ok(
                    reject(
                        RejectionKind::LifecycleError,
                        "Cannot update deprecated entity unless the deprecation is being reversed",
                    ),
                );
            }
            match check_group_auth(view, e.editors_group_id, author)? {
                Verdict::Invalid(rejection) => {
                    return Ok(Verdict::Invalid(rejection));
                },
                Verdict::Valid => {},
            }
            match e.icon {
                Some(address) => validate_icon_field(view, address),
                None => Ok(Verdict::Valid),
            }
        },
        (EntryTypes::App(e), EntryTypes::App(p)) => {
            if e.editors_group_id.group_id != p.editors_group_id.group_id {
                return Ok(
                    reject(
                        RejectionKind::ImmutabilityError,
                        "A record cannot be moved to a different owning group",
                    ),
                );
            }
            if p.deprecation.is_some() && e.deprecation.is_some() {
                return Ok(
                    reject(
                        RejectionKind::LifecycleError,
                        "Cannot update deprecated entity unless the deprecation is being reversed",
                    ),
                );
            }
            match check_group_auth(view, e.editors_group_id, author)? {
                Verdict::Invalid(rejection) => {
                    return Ok(Verdict::Invalid(rejection));
                },
                Verdict::Valid => {},
            }
            validate_icon_field(view, e.icon)
        },
        (EntryTypes::AppVersion(e), EntryTypes::AppVersion(p)) => {
            match validate_common_fields_update(e.author, p.author, author) {
                Verdict::Invalid(rejection) => {
                    return Ok(Verdict::Invalid(rejection));
                },
                Verdict::Valid => {},
            }
            if e.editors_group_id.group_id != p.editors_group_id.group_id {
                return Ok(
                    reject(
                        RejectionKind::ImmutabilityError,
                        "A record cannot be moved to a different owning group",
                    ),
                );
            }
            match check_group_auth(view, e.editors_group_id, author)? {
                Verdict::Invalid(rejection) => {
                    return Ok(Verdict::Invalid(rejection));
                },
                Verdict::Valid => {},
            }
            if e.for_app != p.for_app {
                return Ok(
                    reject(
                        RejectionKind::ImmutabilityError,
                        "App version field 'for_app' cannot be updated",
                    ),
                );
            }
            if e.apphub_hrl != p.apphub_hrl {
                return Ok(
                    reject(
                        RejectionKind::ImmutabilityError,
                        "App version field 'apphub_hrl' cannot be updated",
                    ),
                );
            }
            if e.apphub_hrl_hash != p.apphub_hrl_hash {
                return Ok(
                    reject(
                        RejectionKind::ImmutabilityError,
                        "App version field 'apphub_hrl_hash' cannot be updated",
                    ),
                );
            }
            if !e.bundle_hashes.same(&p.bundle_hashes) {
                return Ok(
                    reject(
                        RejectionKind::ImmutabilityError,
                        "App version field 'bundle_hashes' cannot be updated",
                    ),
                );
            }
            Ok(Verdict::Valid)
        },
        (EntryTypes::ModeratorAction(e), EntryTypes::ModeratorAction(_)) => {
            match validate_common_fields_create(e.author, author) {
                Verdict::Invalid(rejection) => {
                    return Ok(Verdict::Invalid(rejection));
                },
                Verdict::Valid => {},
            }
            check_group_auth(view, e.group_id, author)
        },
        (EntryTypes::GroupAnchor(e), EntryTypes::GroupAnchor(_)) => {
            check_group_auth(
                view,
                GroupRef { group_id: e.group_id, pinned_revision: e.group_id },
                author,
            )
        },
        _ => {
            Ok(
                reject(
                    RejectionKind::StructuralError,
                    "Update's entry variant does not match the previous revision's",
                ),
            )
        },
    }
}

} // verus!
