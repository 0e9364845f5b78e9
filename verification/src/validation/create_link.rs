//! Admissibility of typed-edge creations.
//!
//! Only the authorization of an edge is in scope; the storage mechanics are
//! the substrate's.  An agent-rooted edge into group-owned content requires
//! the base identity's membership; an edge from a global anchor requires the
//! right anchor and a structurally valid target; a moderation edge must
//! agree with its anchor about the group.

use vstd::prelude::*;

use crate::store::{LinkAddress, RecordView};
use crate::types::LinkTypes;
use crate::validation::{check_group_auth, group_auth_outcome};
use crate::verdict::{
    outcome_of, reject, unresolved, Outcome, RejectionKind, ValidationResult, Verdict,
};

verus! {

/// Admissibility of an agent-to-group edge: the base must be an agent, the
/// target a group revision, and the agent a contributor at that revision.
pub open spec fn agent_group_link_outcome(
    view: RecordView,
    base: LinkAddress,
    target: LinkAddress,
) -> Outcome {
    match (base, target) {
        (LinkAddress::Agent(agent), LinkAddress::Action(rev)) => {
            match view.spec_group_with_revision(rev) {
                None => Outcome::Unresolved,
                Some(group) => if group.spec_is_contributor_at(rev, agent) {
                    Outcome::Admit
                } else {
                    Outcome::Reject(RejectionKind::AuthorizationError)
                },
            }
        },
        _ => Outcome::Reject(RejectionKind::StructuralError),
    }
}

/// Admissibility of an agent-to-publisher edge: the base agent must be a
/// contributor of the publisher's group at the publisher's pinned revision.
pub open spec fn agent_publisher_link_outcome(
    view: RecordView,
    base: LinkAddress,
    target: LinkAddress,
) -> Outcome {
    match (base, target) {
        (LinkAddress::Agent(agent), LinkAddress::Action(id)) => {
            match view.spec_publisher(id) {
                None => Outcome::Unresolved,
                Some(publisher) => group_auth_outcome(
                    view,
                    publisher.content.editors_group_id,
                    agent,
                ),
            }
        },
        _ => Outcome::Reject(RejectionKind::StructuralError),
    }
}

/// Admissibility of an agent-to-app edge: the base agent must be a
/// contributor of the app's group at the app's pinned revision.
pub open spec fn agent_app_link_outcome(
    view: RecordView,
    base: LinkAddress,
    target: LinkAddress,
) -> Outcome {
    match (base, target) {
        (LinkAddress::Agent(agent), LinkAddress::Action(id)) => {
            match view.spec_app(id) {
                None => Outcome::Unresolved,
                Some(app) => group_auth_outcome(view, app.content.editors_group_id, agent),
            }
        },
        _ => Outcome::Reject(RejectionKind::StructuralError),
    }
}

/// Admissibility of an all-apps edge: the base must be the global all-apps
/// anchor and the target a published, structurally valid app record.
pub open spec fn all_apps_link_outcome(
    view: RecordView,
    base: LinkAddress,
    target: LinkAddress,
) -> Outcome {
    if base != LinkAddress::Entry(view.all_apps_anchor) {
        Outcome::Reject(RejectionKind::ReferentialError)
    } else {
        match target {
            LinkAddress::Action(id) => if view.spec_app(id) is Some {
                Outcome::Admit
            } else {
                Outcome::Reject(RejectionKind::ReferentialError)
            },
            _ => Outcome::Reject(RejectionKind::StructuralError),
        }
    }
}

/// Admissibility of an all-publishers edge, symmetric to the all-apps rule.
pub open spec fn all_publishers_link_outcome(
    view: RecordView,
    base: LinkAddress,
    target: LinkAddress,
) -> Outcome {
    if base != LinkAddress::Entry(view.all_publishers_anchor) {
        Outcome::Reject(RejectionKind::ReferentialError)
    } else {
        match target {
            LinkAddress::Action(id) => if view.spec_publisher(id) is Some {
                Outcome::Admit
            } else {
                Outcome::Reject(RejectionKind::ReferentialError)
            },
            _ => Outcome::Reject(RejectionKind::StructuralError),
        }
    }
}

/// Admissibility of a moderation edge: base and target must resolve to a
/// group anchor and a moderator action that name the same group.
pub open spec fn moderation_link_outcome(
    view: RecordView,
    base: LinkAddress,
    target: LinkAddress,
) -> Outcome {
    match (base, target) {
        (LinkAddress::Entry(anchor_address), LinkAddress::Action(action_id)) => {
            match view.spec_group_anchor_at(anchor_address) {
                None => Outcome::Unresolved,
                Some(anchor) => match view.spec_moderator_action(action_id) {
                    None => Outcome::Unresolved,
                    Some(action) => if anchor.content.group_id != action.content.group_id.group_id {
                        Outcome::Reject(RejectionKind::ReferentialError)
                    } else {
                        Outcome::Admit
                    },
                },
            }
        },
        _ => Outcome::Reject(RejectionKind::StructuralError),
    }
}

/// Admissibility of one edge creation, dispatched by edge type.  Edge types
/// with no published rule (publisher-to-app, app-to-version) are admitted.
pub open spec fn create_link_outcome(
    view: RecordView,
    base: LinkAddress,
    target: LinkAddress,
    link_type: LinkTypes,
) -> Outcome {
    match link_type {
        LinkTypes::AgentToGroup => agent_group_link_outcome(view, base, target),
        LinkTypes::AgentToPublisher => agent_publisher_link_outcome(view, base, target),
        LinkTypes::AgentToApp => agent_app_link_outcome(view, base, target),
        LinkTypes::AllAppsToApp => all_apps_link_outcome(view, base, target),
        LinkTypes::AllPublishersToPublisher => all_publishers_link_outcome(view, base, target),
        LinkTypes::GroupAnchorToModeratorAction => moderation_link_outcome(view, base, target),
        LinkTypes::PublisherToApp => Outcome::Admit,
        LinkTypes::AppToAppVersion => Outcome::Admit,
    }
}

/// Validates one edge creation against the published view.
pub fn validation(
    base: LinkAddress,
    target: LinkAddress,
    link_type: LinkTypes,
    view: &RecordView,
) -> (r: ValidationResult)
    requires
        view.wf(),
    ensures
        outcome_of(r) == create_link_outcome(*view, base, target, link_type),
{
    match link_type {
        LinkTypes::AgentToGroup => {
            match (base, target) {
                (LinkAddress::Agent(agent), LinkAddress::Action(rev)) => {
                    let group = match view.group_with_revision(rev) {
                        Some(group) => group,
                        None => {
                            return Err(unresolved("Target group revision could not be resolved"));
                        },
                    };
                    if group.is_contributor_at(rev, agent) {
                        Ok(Verdict::Valid)
                    } else {
                        Ok(
                            reject(
                                RejectionKind::AuthorizationError,
                                "Agent base address is not a contributor of the target group",
                            ),
                        )
                    }
                },
                _ => Ok(
                    reject(
                        RejectionKind::StructuralError,
                        "Agent-to-group edge must run from an agent to a group revision",
                    ),
                ),
            }
        },
        LinkTypes::AgentToPublisher => {
            match (base, target) {
                (LinkAddress::Agent(agent), LinkAddress::Action(id)) => {
                    let publisher = match view.publisher(id) {
                        Some(record) => record,
                        None => {
                            return Err(unresolved("Target publisher could not be resolved"));
                        },
                    };
                    check_group_auth(view, publisher.content.editors_group_id, agent)
                },
                _ => Ok(
                    reject(
                        RejectionKind::StructuralError,
                        "Agent-to-publisher edge must run from an agent to a publisher record",
                    ),
                ),
            }
        },
        LinkTypes::AgentToApp => {
            match (base, target) {
                (LinkAddress::Agent(agent), LinkAddress::Action(id)) => {
                    let app = match view.app(id) {
                        Some(record) => record,
                        None => {
                            return Err(unresolved("Target app could not be resolved"));
                        },
                    };
                    check_group_auth(view, app.content.editors_group_id, agent)
                },
                _ => Ok(
                    reject(
                        RejectionKind::StructuralError,
                        "Agent-to-app edge must run from an agent to an app record",
                    ),
                ),
            }
        },
        LinkTypes::AllAppsToApp => {
            if base != LinkAddress::Entry(view.all_apps_anchor) {
                return Ok(
                    reject(
                        RejectionKind::ReferentialError,
                        "Base address must be the all-apps anchor",
                    ),
                );
            }
            match target {
                LinkAddress::Action(id) => {
                    if view.app(id).is_some() {
                        Ok(Verdict::Valid)
                    } else {
                        Ok(
                            reject(
                                RejectionKind::ReferentialError,
                                "Target does not resolve to a valid app record",
                            ),
                        )
                    }
                },
                _ => Ok(
                    reject(
                        RejectionKind::StructuralError,
                        "All-apps edge must point at an app record",
                    ),
                ),
            }
        },
        LinkTypes::AllPublishersToPublisher => {
            if base != LinkAddress::Entry(view.all_publishers_anchor) {
                return Ok(
                    reject(
                        RejectionKind::ReferentialError,
                        "Base address must be the all-publishers anchor",
                    ),
                );
            }
            match target {
                LinkAddress::Action(id) => {
                    if view.publisher(id).is_some() {
                        Ok(Verdict::Valid)
                    } else {
                        Ok(
                            reject(
                                RejectionKind::ReferentialError,
                                "Target does not resolve to a valid publisher record",
                            ),
                        )
                    }
                },
                _ => Ok(
                    reject(
                        RejectionKind::StructuralError,
                        "All-publishers edge must point at a publisher record",
                    ),
                ),
            }
        },
        LinkTypes::GroupAnchorToModeratorAction => {
            match (base, target) {
                (LinkAddress::Entry(anchor_address), LinkAddress::Action(action_id)) => {
                    let anchor = match view.group_anchor_at(anchor_address) {
                        Some(record) => record,
                        None => {
                            return Err(unresolved("Base group anchor could not be resolved"));
                        },
                    };
                    let action = match view.moderator_action(action_id) {
                        Some(record) => record,
                        None => {
                            return Err(unresolved("Target moderator action could not be resolved"));
                        },
                    };
                    if anchor.content.group_id != action.content.group_id.group_id {
                        Ok(
                            reject(
                                RejectionKind::ReferentialError,
                                "Moderator action does not belong to the group anchor",
                            ),
                        )
                    } else {
                        Ok(Verdict::Valid)
                    }
                },
                _ => Ok(
                    reject(
                        RejectionKind::StructuralError,
                        "Moderation edge must run from a group anchor to a moderator action",
                    ),
                ),
            }
        },
        LinkTypes::PublisherToApp => Ok(Verdict::Valid),
        LinkTypes::AppToAppVersion => Ok(Verdict::Valid),
    }
}

} // verus!
