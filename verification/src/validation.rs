//! The validation and authorization engine.
//!
//! A candidate mutation enters the structural validator, is dispatched by
//! entity variant to the per-variant admissibility rules, which consult the
//! group resolver for membership, the group-reference consistency checker
//! for the pinned revision, and the blob-size oracle for icon ceilings.  The
//! engine is a pure decision procedure over the read-only view of published
//! records: it never writes, and every peer reaches the same verdict from
//! the same inputs.

use vstd::prelude::*;

pub mod create_entry;
pub mod create_link;
pub mod delete_entry;
pub mod delete_link;
pub mod update_entry;

use crate::store::{Link, LinkAddress, RecordView};
use crate::types::{AgentKey, EntryId, EntryTypes, GroupRef, LinkTypes};
use crate::verdict::{
    outcome_of, reject, unresolved, Outcome, RejectionKind, ValidationResult, Verdict,
};
use crate::ICON_SIZE_LIMIT;

verus! {

/// A candidate mutation, as the substrate hands it to the engine: the
/// operation kind with its payload, the verified signer, and (for updates
/// and deletes) the already-resolved prior state.
pub enum Op {
    /// An entry is being posted.
    StoreEntry { entry: EntryTypes, author: AgentKey },
    /// An entry updates a previous revision, whose payload the substrate
    /// has resolved.
    RegisterUpdate { entry: EntryTypes, original: EntryTypes, author: AgentKey },
    /// A record line is being tombstoned; `created_by` is the verified
    /// author of its first revision.
    RegisterDelete { original: EntryTypes, created_by: AgentKey, author: AgentKey },
    /// A typed edge is being created.
    RegisterCreateLink { base: LinkAddress, target: LinkAddress, link_type: LinkTypes },
    /// A typed edge is being deleted; `link` is the edge as its creation
    /// recorded it.
    RegisterDeleteLink { link: Link, author: AgentKey },
}

/// The verdict the whole engine owes for one candidate mutation.
pub open spec fn validate_outcome(view: RecordView, op: Op) -> Outcome {
    match op {
        Op::StoreEntry { entry, author } => create_entry::create_outcome(view, entry, author),
        Op::RegisterUpdate { entry, original, author } => update_entry::update_outcome(
            view,
            entry,
            original,
            author,
        ),
        Op::RegisterDelete { original, created_by, author } => delete_entry::delete_outcome(
            view,
            original,
            created_by,
            author,
        ),
        Op::RegisterCreateLink { base, target, link_type } => create_link::create_link_outcome(
            view,
            base,
            target,
            link_type,
        ),
        Op::RegisterDeleteLink { link, author } => delete_link::delete_link_outcome(
            view,
            link,
            author,
        ),
    }
}

/// Classifies one candidate mutation: the engine's single entry point,
/// dispatching by operation kind and entity variant.
pub fn validate(op: &Op, view: &RecordView) -> (r: ValidationResult)
    requires
        view.wf(),
    ensures
        outcome_of(r) == validate_outcome(*view, *op),
{
    match op {
        Op::StoreEntry { entry, author } => create_entry::validation(entry, *author, view),
        Op::RegisterUpdate { entry, original, author } => update_entry::validation(
            entry,
            *author,
            original,
            view,
        ),
        Op::RegisterDelete { original, created_by, author } => delete_entry::validation(
            original,
            *created_by,
            *author,
            view,
        ),
        Op::RegisterCreateLink { base, target, link_type } => create_link::validation(
            *base,
            *target,
            *link_type,
            view,
        ),
        Op::RegisterDeleteLink { link, author } => delete_link::validation(*link, *author, view),
    }
}

/// The group-reference consistency check combined with the membership test.
///
/// The pin must name a real revision of the referenced group (staleness is
/// tolerated, fabrication is not), and the author must be a contributor at
/// exactly that pinned revision.  An unknown group is an unresolved
/// dependency, not a rejection.
pub open spec fn group_auth_outcome(view: RecordView, gref: GroupRef, author: AgentKey) -> Outcome {
    match view.spec_group(gref.group_id) {
        None => Outcome::Unresolved,
        Some(group) => if !group.spec_has_revision(gref.pinned_revision) {
            Outcome::Reject(RejectionKind::ReferentialError)
        } else if !group.spec_is_contributor_at(gref.pinned_revision, author) {
            Outcome::Reject(RejectionKind::AuthorizationError)
        } else {
            Outcome::Admit
        },
    }
}

/// Checks a mutation's group reference: pin reachability first (§consistency),
/// then membership of `author` at the pinned revision.
pub fn check_group_auth(view: &RecordView, gref: GroupRef, author: AgentKey) -> (r:
    ValidationResult)
    requires
        view.wf(),
    ensures
        outcome_of(r) == group_auth_outcome(*view, gref, author),
{
    let group = match view.group(gref.group_id) {
        Some(group) => group,
        None => {
            return Err(unresolved("Referenced group could not be resolved"));
        },
    };
    if !group.has_revision(gref.pinned_revision) {
        return Ok(
            reject(
                RejectionKind::ReferentialError,
                "Pinned revision is not part of the group's revision chain",
            ),
        );
    }
    if !group.is_contributor_at(gref.pinned_revision, author) {
        return Ok(
            reject(
                RejectionKind::AuthorizationError,
                "Author is not a contributor of the group at the pinned revision",
            ),
        );
    }
    Ok(Verdict::Valid)
}

/// The icon ceiling rule: the blob's reported size (uncompressed if known,
/// else stored) must not exceed `ICON_SIZE_LIMIT` bytes.  A blob the size
/// oracle cannot resolve is an unresolved dependency.
pub open spec fn icon_outcome(view: RecordView, address: EntryId) -> Outcome {
    match view.spec_memory(address) {
        None => Outcome::Unresolved,
        Some(memory) => if memory.spec_reported_size() > ICON_SIZE_LIMIT {
            Outcome::Reject(RejectionKind::ResourceLimitError)
        } else {
            Outcome::Admit
        },
    }
}

/// The icon ceiling rule for an optional icon: absent icons pass.
pub open spec fn opt_icon_outcome(view: RecordView, icon: Option<EntryId>) -> Outcome {
    match icon {
        Some(address) => icon_outcome(view, address),
        None => Outcome::Admit,
    }
}

/// Checks the icon blob at `address` against the size ceiling.
pub fn validate_icon_field(view: &RecordView, address: EntryId) -> (r: ValidationResult)
    ensures
        outcome_of(r) == icon_outcome(*view, address),
{
    let memory = match view.memory(address) {
        Some(memory) => memory,
        None => {
            return Err(unresolved("Icon blob could not be resolved"));
        },
    };
    if memory.reported_size() > ICON_SIZE_LIMIT {
        return Ok(
            reject(RejectionKind::ResourceLimitError, "Icon cannot be larger than 200KB"),
        );
    }
    Ok(Verdict::Valid)
}

/// The structural rule for creations: the claimed author must be the
/// cryptographically verified signer of the enclosing action.
pub open spec fn author_match_outcome(entry_author: AgentKey, action_author: AgentKey) -> Outcome {
    if entry_author != action_author {
        Outcome::Reject(RejectionKind::StructuralError)
    } else {
        Outcome::Admit
    }
}

/// Checks the claimed author against the action's verified signer.
pub fn validate_common_fields_create(entry_author: AgentKey, action_author: AgentKey) -> (r:
    Verdict)
    ensures
        outcome_of(Ok(r)) == author_match_outcome(entry_author, action_author),
{
    if entry_author != action_author {
        reject(RejectionKind::StructuralError, "Entry author does not match Action author")
    } else {
        Verdict::Valid
    }
}

/// The structural rule for updates of variants that carry a direct author
/// field: the previous revision must be bound to the same signer, and the
/// author binding cannot change across the update chain.
pub open spec fn author_chain_outcome(
    entry_author: AgentKey,
    prev_author: AgentKey,
    action_author: AgentKey,
) -> Outcome {
    if prev_author != action_author {
        Outcome::Reject(RejectionKind::StructuralError)
    } else if entry_author != prev_author {
        Outcome::Reject(RejectionKind::StructuralError)
    } else {
        Outcome::Admit
    }
}

/// Checks the author binding across one update of an author-carrying
/// variant.
pub fn validate_common_fields_update(
    entry_author: AgentKey,
    prev_author: AgentKey,
    action_author: AgentKey,
) -> (r: Verdict)
    ensures
        outcome_of(Ok(r)) == author_chain_outcome(entry_author, prev_author, action_author),
{
    if prev_author != action_author {
        reject(
            RejectionKind::StructuralError,
            "Previous entry author does not match Action author",
        )
    } else if entry_author != prev_author {
        reject(RejectionKind::StructuralError, "Cannot change the entry author")
    } else {
        Verdict::Valid
    }
}

/// The current-contributor rule used by deletes: membership is evaluated at
/// the owning group's present tip, not at a pinned revision.
pub open spec fn current_contributor_outcome(
    view: RecordView,
    group_id: crate::types::ActionId,
    author: AgentKey,
) -> Outcome {
    match view.spec_group(group_id) {
        None => Outcome::Unresolved,
        Some(group) => if group.spec_is_contributor_at(group.spec_latest(), author) {
            Outcome::Admit
        } else {
            Outcome::Reject(RejectionKind::AuthorizationError)
        },
    }
}

/// Checks that `author` is a contributor of group `group_id` at its current
/// tip.
pub fn check_current_contributor(
    view: &RecordView,
    group_id: crate::types::ActionId,
    author: AgentKey,
) -> (r: ValidationResult)
    requires
        view.wf(),
    ensures
        outcome_of(r) == current_contributor_outcome(*view, group_id, author),
{
    let group = match view.group(group_id) {
        Some(group) => group,
        None => {
            return Err(unresolved("Owning group could not be resolved"));
        },
    };
    let tip = group.latest_revision();
    if group.is_contributor_at(tip, author) {
        Ok(Verdict::Valid)
    } else {
        Ok(
            reject(
                RejectionKind::AuthorizationError,
                "Author is not a current contributor of the owning group",
            ),
        )
    }
}

} // verus!
