//! Admissibility of entry deletions.
//!
//! A delete is a tombstone on a record line: it never removes history.  The
//! record's original creator may always end their own line; otherwise
//! deletion requires current contributor status in the record's owning
//! group, and the audit variants (moderator actions, group anchors) are not
//! deletable by anyone else at all.

use vstd::prelude::*;

use crate::store::RecordView;
use crate::types::{AgentKey, EntryTypes};
use crate::validation::{check_current_contributor, current_contributor_outcome};
use crate::verdict::{outcome_of, reject, Outcome, RejectionKind, ValidationResult, Verdict};

verus! {

/// Admissibility of one entry deletion: `created_by` is the verified author
/// of the record's first revision, `author` the signer of the delete.
pub open spec fn delete_outcome(
    view: RecordView,
    original: EntryTypes,
    created_by: AgentKey,
    author: AgentKey,
) -> Outcome {
    if author == created_by {
        Outcome::Admit
    } else {
        match original {
            EntryTypes::Publisher(publisher) => current_contributor_outcome(
                view,
                publisher.editors_group_id.group_id,
                author,
            ),
            EntryTypes::App(app) => current_contributor_outcome(
                view,
                app.editors_group_id.group_id,
                author,
            ),
            EntryTypes::AppVersion(version) => current_contributor_outcome(
                view,
                version.editors_group_id.group_id,
                author,
            ),
            EntryTypes::ModeratorAction(_) => Outcome::Reject(RejectionKind::AuthorizationError),
            EntryTypes::GroupAnchor(_) => Outcome::Reject(RejectionKind::AuthorizationError),
        }
    }
}

/// Validates one entry deletion against the published view.
pub fn validation(original: &EntryTypes, created_by: AgentKey, author: AgentKey, view: &RecordView)
    -> (r: ValidationResult)
    requires
        view.wf(),
    ensures
        outcome_of(r) == delete_outcome(*view, *original, created_by, author),
{
    if author == created_by {
        return Ok(Verdict::Valid);
    }
    match original {
        EntryTypes::Publisher(publisher) => {
            check_current_contributor(view, publisher.editors_group_id.group_id, author)
        },
        EntryTypes::App(app) => {
            check_current_contributor(view, app.editors_group_id.group_id, author)
        },
        EntryTypes::AppVersion(version) => {
            check_current_contributor(view, version.editors_group_id.group_id, author)
        },
        EntryTypes::ModeratorAction(_) => {
            Ok(
                reject(
                    RejectionKind::AuthorizationError,
                    "Not authorized to delete a moderator action created by someone else",
                ),
            )
        },
        EntryTypes::GroupAnchor(_) => {
            Ok(
                reject(
                    RejectionKind::AuthorizationError,
                    "Not authorized to delete a group anchor created by someone else",
                ),
            )
        },
    }
}

} // verus!
