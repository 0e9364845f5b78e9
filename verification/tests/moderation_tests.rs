//! The moderation overlay: write path, fold-to-latest, viewpoints, and
//! replay-order independence on concrete values.

use appstore::moderation::{GetModeratorActionsInput, GroupModeration, UpdateModeratorActionInput};
use appstore::store::Record;
use appstore::types::{
    ActionId, AgentKey, AppEntry, EntryId, GroupRef, Metadata, MetaValue, HRL,
};

const BOB: AgentKey = AgentKey(2);
const GROUP_G: ActionId = ActionId(10);
const GROUP_R1: ActionId = ActionId(10);
const APP_X: ActionId = ActionId(30);
const APP_Y: ActionId = ActionId(31);

fn removal_metadata(remove: bool) -> Metadata {
    let mut m = Metadata::new();
    m.push(String::from("remove"), MetaValue::Boolean(remove));
    m
}

fn decision(subject: ActionId, remove: bool, message: &str) -> UpdateModeratorActionInput {
    UpdateModeratorActionInput {
        group_id: GROUP_G,
        app_id: subject,
        message: String::from(message),
        metadata: removal_metadata(remove),
    }
}

fn app_record(id: ActionId) -> Record<AppEntry> {
    Record {
        id,
        address: EntryId(id.0 + 100),
        created_by: BOB,
        content: AppEntry {
            title: String::from("App"),
            subtitle: String::from("An app"),
            description: String::from("An app"),
            icon: EntryId(40),
            publisher: ActionId(20),
            apphub_hrl: HRL { dna: appstore::types::DnaId(7), target: EntryId(70) },
            apphub_hrl_hash: EntryId(71),
            editors_group_id: GroupRef { group_id: GROUP_G, pinned_revision: GROUP_R1 },
            published_at: 100,
            last_updated: 100,
            metadata: Metadata::new(),
            deprecation: None,
        },
    }
}

#[test]
fn first_decision_opens_a_chain_and_ensures_the_anchor() {
    let mut overlay = GroupModeration::new(GROUP_G);
    assert!(!overlay.anchor_exists);
    overlay.update_moderated_state(decision(APP_X, true, "spam"), BOB, GROUP_R1, 500);
    assert!(overlay.anchor_exists);
    let input = GetModeratorActionsInput { group_id: GROUP_G, app_id: APP_X };
    let chain = overlay.get_moderator_actions(&input).expect("chain should exist");
    assert_eq!(chain.len(), 1);
    assert_eq!(chain[0].author, BOB);
    assert_eq!(chain[0].published_at, 500);
    assert_eq!(chain[0].subject_id, APP_X);
    assert_eq!(chain[0].group_id.pinned_revision, GROUP_R1);
    assert_eq!(chain[0].message, String::from("spam"));
}

#[test]
fn later_decisions_append_to_the_chain_tip() {
    let mut overlay = GroupModeration::new(GROUP_G);
    overlay.update_moderated_state(decision(APP_X, true, "spam"), BOB, GROUP_R1, 500);
    overlay.update_moderated_state(decision(APP_X, false, "appeal accepted"), BOB, GROUP_R1, 600);
    let input = GetModeratorActionsInput { group_id: GROUP_G, app_id: APP_X };
    let chain = overlay.get_moderator_actions(&input).expect("chain should exist");
    assert_eq!(chain.len(), 2);
    assert_eq!(chain[0].message, String::from("spam"));
    assert_eq!(chain[1].message, String::from("appeal accepted"));
    let state = overlay.get_moderated_state(&input).expect("state should exist");
    assert_eq!(state.published_at, 600);
}

#[test]
fn no_chain_means_no_moderated_state() {
    let overlay = GroupModeration::new(GROUP_G);
    let input = GetModeratorActionsInput { group_id: GROUP_G, app_id: APP_X };
    assert!(overlay.get_moderator_actions(&input).is_none());
    assert!(overlay.get_moderated_state(&input).is_none());
}

#[test]
fn the_last_decision_decides_visibility() {
    let mut overlay = GroupModeration::new(GROUP_G);
    assert!(!overlay.is_hidden(APP_X));
    overlay.update_moderated_state(decision(APP_X, true, "spam"), BOB, GROUP_R1, 500);
    assert!(overlay.is_hidden(APP_X));
    overlay.update_moderated_state(decision(APP_X, false, "restored"), BOB, GROUP_R1, 600);
    assert!(!overlay.is_hidden(APP_X));
    overlay.update_moderated_state(decision(APP_X, true, "again"), BOB, GROUP_R1, 700);
    assert!(overlay.is_hidden(APP_X));
}

#[test]
fn decisions_without_a_removal_flag_do_not_hide() {
    let mut overlay = GroupModeration::new(GROUP_G);
    overlay.update_moderated_state(
        UpdateModeratorActionInput {
            group_id: GROUP_G,
            app_id: APP_X,
            message: String::from("note only"),
            metadata: Metadata::new(),
        },
        BOB,
        GROUP_R1,
        500,
    );
    assert!(!overlay.is_hidden(APP_X));
}

#[test]
fn viewpoint_splits_apps_into_visible_and_removed() {
    let mut overlay = GroupModeration::new(GROUP_G);
    overlay.update_moderated_state(decision(APP_X, true, "spam"), BOB, GROUP_R1, 500);
    let apps = vec![app_record(APP_X), app_record(APP_Y)];
    assert_eq!(overlay.viewpoint_get_all_apps(&apps), vec![APP_Y]);
    assert_eq!(overlay.viewpoint_get_all_removed_apps(&apps), vec![APP_X]);
    overlay.update_moderated_state(decision(APP_X, false, "restored"), BOB, GROUP_R1, 600);
    assert_eq!(overlay.viewpoint_get_all_apps(&apps), vec![APP_X, APP_Y]);
    assert_eq!(overlay.viewpoint_get_all_removed_apps(&apps), Vec::<ActionId>::new());
}

#[test]
fn replay_order_does_not_change_the_hidden_set() {
    // The same decisions for two subjects, interleaved two different ways
    // that keep each chain's own order.
    let mut first = GroupModeration::new(GROUP_G);
    first.update_moderated_state(decision(APP_X, true, "x removed"), BOB, GROUP_R1, 1);
    first.update_moderated_state(decision(APP_Y, true, "y removed"), BOB, GROUP_R1, 2);
    first.update_moderated_state(decision(APP_X, false, "x restored"), BOB, GROUP_R1, 3);

    let mut second = GroupModeration::new(GROUP_G);
    second.update_moderated_state(decision(APP_Y, true, "y removed"), BOB, GROUP_R1, 2);
    second.update_moderated_state(decision(APP_X, true, "x removed"), BOB, GROUP_R1, 1);
    second.update_moderated_state(decision(APP_X, false, "x restored"), BOB, GROUP_R1, 3);

    assert_eq!(first.is_hidden(APP_X), second.is_hidden(APP_X));
    assert_eq!(first.is_hidden(APP_Y), second.is_hidden(APP_Y));
    assert!(!first.is_hidden(APP_X));
    assert!(first.is_hidden(APP_Y));
}
