//! Admissibility of typed-edge deletions.
//!
//! An edge's creator may always delete it.  An agent-rooted edge may also be
//! deleted by the agent whose anchor it sits on.  An edge rooted at a
//! group-derived anchor (a moderation edge) may be deleted by any current
//! contributor of the referenced group.  Every other edge is deletable by
//! its creator alone.

use vstd::prelude::*;

use crate::store::{Link, LinkAddress, RecordView};
use crate::types::{AgentKey, LinkTypes};
use crate::validation::{check_current_contributor, current_contributor_outcome};
use crate::verdict::{
    outcome_of, reject, unresolved, Outcome, RejectionKind, ValidationResult, Verdict,
};

verus! {

/// Whether the deleter owns the agent anchor an edge is rooted at.
pub open spec fn agent_anchor_owner(base: LinkAddress, author: AgentKey) -> bool {
    base == LinkAddress::Agent(author)
}

/// Admissibility of deleting a moderation edge: any current contributor of
/// the group the target action names may prune it.
pub open spec fn moderation_link_delete_outcome(
    view: RecordView,
    target: LinkAddress,
    author: AgentKey,
) -> Outcome {
    match target {
        LinkAddress::Action(action_id) => match view.spec_moderator_action(action_id) {
            None => Outcome::Unresolved,
            Some(action) => current_contributor_outcome(
                view,
                action.content.group_id.group_id,
                author,
            ),
        },
        _ => Outcome::Reject(RejectionKind::StructuralError),
    }
}

/// Admissibility of one edge deletion: `link` is the edge as its creation
/// recorded it, `author` the signer of the delete.
pub open spec fn delete_link_outcome(view: RecordView, link: Link, author: AgentKey) -> Outcome {
    if link.author == author {
        Outcome::Admit
    } else {
        match link.link_type {
            LinkTypes::AgentToGroup => if agent_anchor_owner(link.base, author) {
                Outcome::Admit
            } else {
                Outcome::Reject(RejectionKind::AuthorizationError)
            },
            LinkTypes::AgentToPublisher => if agent_anchor_owner(link.base, author) {
                Outcome::Admit
            } else {
                Outcome::Reject(RejectionKind::AuthorizationError)
            },
            LinkTypes::AgentToApp => if agent_anchor_owner(link.base, author) {
                Outcome::Admit
            } else {
                Outcome::Reject(RejectionKind::AuthorizationError)
            },
            LinkTypes::AllPublishersToPublisher => Outcome::Reject(
                RejectionKind::AuthorizationError,
            ),
            LinkTypes::AllAppsToApp => Outcome::Reject(RejectionKind::AuthorizationError),
            LinkTypes::PublisherToApp => Outcome::Reject(RejectionKind::AuthorizationError),
            LinkTypes::AppToAppVersion => Outcome::Reject(RejectionKind::AuthorizationError),
            LinkTypes::GroupAnchorToModeratorAction => moderation_link_delete_outcome(
                view,
                link.target,
                author,
            ),
        }
    }
}

/// Validates one edge deletion against the published view.
pub fn validation(link: Link, author: AgentKey, view: &RecordView) -> (r: ValidationResult)
    requires
        view.wf(),
    ensures
        outcome_of(r) == delete_link_outcome(*view, link, author),
{
    if link.author == author {
        return Ok(Verdict::Valid);
    }
    match link.link_type {
        LinkTypes::AgentToGroup | LinkTypes::AgentToPublisher | LinkTypes::AgentToApp => {
            if link.base == LinkAddress::Agent(author) {
                Ok(Verdict::Valid)
            } else {
                Ok(
                    reject(
                        RejectionKind::AuthorizationError,
                        "Not authorized to delete an edge on another agent's anchor",
                    ),
                )
            }
        },
        LinkTypes::AllPublishersToPublisher | LinkTypes::AllAppsToApp | LinkTypes::PublisherToApp
            | LinkTypes::AppToAppVersion => {
            Ok(
                reject(
                    RejectionKind::AuthorizationError,
                    "Only the edge's creator can delete it",
                ),
            )
        },
        LinkTypes::GroupAnchorToModeratorAction => {
            match link.target {
                LinkAddress::Action(action_id) => {
                    let action = match view.moderator_action(action_id) {
                        Some(record) => record,
                        None => {
                            return Err(unresolved("Target moderator action could not be resolved"));
                        },
                    };
                    check_current_contributor(view, action.content.group_id.group_id, author)
                },
                _ => Ok(
                    reject(
                        RejectionKind::StructuralError,
                        "Moderation edge must point at a moderator action",
                    ),
                ),
            }
        },
    }
}

} // verus!
