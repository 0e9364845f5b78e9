//! Entry validation: authorship, pins, write-once fields, deprecation and
//! the icon ceiling, on concrete published views.

use appstore::group::{Group, GroupRevision};
use appstore::store::{MemoryEntry, Record, RecordView};
use appstore::types::{
    ActionId, AgentKey, AppEntry, AppVersionEntry, BundleHashes, DeprecationNotice, EntityId,
    EntryId, EntryTypes, GroupAnchorEntry, GroupRef, Metadata, ModeratorActionEntry,
    PublisherEntry, WebAddress, HRL,
};
use appstore::validation::{validate, Op};
use appstore::verdict::{RejectionKind, UnresolvableDependencyError, Verdict};

const ALICE: AgentKey = AgentKey(1);
const BOB: AgentKey = AgentKey(2);
const CAROL: AgentKey = AgentKey(3);

const GROUP_G: ActionId = ActionId(10);
const GROUP_R2: ActionId = ActionId(11);
const PUB_P: ActionId = ActionId(20);
const APP_X: ActionId = ActionId(30);
const ICON_OK: EntryId = EntryId(40);
const ICON_BIG: EntryId = EntryId(41);

fn group_g() -> Group {
    Group {
        revisions: vec![
            GroupRevision { revision: GROUP_G, contributors: vec![ALICE, BOB] },
            GroupRevision { revision: GROUP_R2, contributors: vec![BOB] },
        ],
    }
}

fn gref(pin: ActionId) -> GroupRef {
    GroupRef { group_id: GROUP_G, pinned_revision: pin }
}

fn publisher_entry(pin: ActionId) -> PublisherEntry {
    PublisherEntry {
        name: String::from("Acme"),
        location: String::from("Utrecht"),
        website: WebAddress { url: String::from("https://acme.example"), context: None },
        editors_group_id: gref(pin),
        published_at: 100,
        last_updated: 100,
        metadata: Metadata::new(),
        description: None,
        email: None,
        icon: Some(ICON_OK),
        deprecation: None,
    }
}

fn app_entry(pin: ActionId) -> AppEntry {
    AppEntry {
        title: String::from("Chess"),
        subtitle: String::from("Play chess"),
        description: String::from("A chess app"),
        icon: ICON_OK,
        publisher: PUB_P,
        apphub_hrl: HRL { dna: appstore::types::DnaId(7), target: EntryId(70) },
        apphub_hrl_hash: EntryId(71),
        editors_group_id: gref(pin),
        published_at: 100,
        last_updated: 100,
        metadata: Metadata::new(),
        deprecation: None,
    }
}

fn app_version_entry(author: AgentKey, pin: ActionId) -> AppVersionEntry {
    AppVersionEntry {
        version: String::from("1.0.0"),
        for_app: APP_X,
        apphub_hrl: HRL { dna: appstore::types::DnaId(7), target: EntryId(72) },
        apphub_hrl_hash: EntryId(73),
        bundle_hashes: BundleHashes {
            hash: String::from("aa"),
            ui_hash: String::from("bb"),
            happ_hash: String::from("cc"),
        },
        editors_group_id: gref(pin),
        author,
        published_at: 100,
        last_updated: 100,
        metadata: Metadata::new(),
    }
}

fn view() -> RecordView {
    RecordView {
        groups: vec![group_g()],
        publishers: vec![Record {
            id: PUB_P,
            address: EntryId(120),
            created_by: ALICE,
            content: publisher_entry(GROUP_G),
        }],
        apps: vec![Record {
            id: APP_X,
            address: EntryId(130),
            created_by: ALICE,
            content: app_entry(GROUP_G),
        }],
        app_versions: vec![],
        moderator_actions: vec![],
        group_anchors: vec![],
        memories: vec![
            MemoryEntry { address: ICON_OK, memory_size: 204_800, uncompressed_size: None },
            MemoryEntry { address: ICON_BIG, memory_size: 100, uncompressed_size: Some(204_801) },
        ],
        all_apps_anchor: EntryId(200),
        all_publishers_anchor: EntryId(201),
    }
}

fn rejection_kind(r: Result<Verdict, UnresolvableDependencyError>) -> Option<RejectionKind> {
    match r {
        Ok(Verdict::Invalid(rejection)) => Some(rejection.kind),
        _ => None,
    }
}

fn is_valid(r: Result<Verdict, UnresolvableDependencyError>) -> bool {
    matches!(r, Ok(Verdict::Valid))
}

#[test]
fn contributor_can_create_publisher() {
    let v = view();
    let op = Op::StoreEntry { entry: EntryTypes::Publisher(publisher_entry(GROUP_G)), author: ALICE };
    assert!(is_valid(validate(&op, &v)));
}

#[test]
fn outsider_cannot_create_publisher() {
    let v = view();
    let op = Op::StoreEntry { entry: EntryTypes::Publisher(publisher_entry(GROUP_G)), author: CAROL };
    assert_eq!(rejection_kind(validate(&op, &v)), Some(RejectionKind::AuthorizationError));
}

#[test]
fn membership_is_evaluated_at_the_pinned_revision() {
    let v = view();
    // Alice was a contributor at the first revision but not at the second.
    let op = Op::StoreEntry { entry: EntryTypes::Publisher(publisher_entry(GROUP_R2)), author: ALICE };
    assert_eq!(rejection_kind(validate(&op, &v)), Some(RejectionKind::AuthorizationError));
    let op = Op::StoreEntry { entry: EntryTypes::Publisher(publisher_entry(GROUP_R2)), author: BOB };
    assert!(is_valid(validate(&op, &v)));
}

#[test]
fn fabricated_pin_is_a_referential_error_even_for_contributors() {
    let v = view();
    let op = Op::StoreEntry {
        entry: EntryTypes::Publisher(publisher_entry(ActionId(999))),
        author: ALICE,
    };
    assert_eq!(rejection_kind(validate(&op, &v)), Some(RejectionKind::ReferentialError));
}

#[test]
fn unknown_group_is_an_unresolved_dependency() {
    let v = view();
    let mut entry = publisher_entry(GROUP_G);
    entry.editors_group_id = GroupRef { group_id: ActionId(999), pinned_revision: ActionId(999) };
    let op = Op::StoreEntry { entry: EntryTypes::Publisher(entry), author: ALICE };
    assert!(validate(&op, &v).is_err());
}

#[test]
fn icon_at_the_ceiling_is_accepted() {
    let v = view();
    let mut entry = publisher_entry(GROUP_G);
    entry.icon = Some(ICON_OK); // reported size exactly 204,800 bytes
    let op = Op::StoreEntry { entry: EntryTypes::Publisher(entry), author: ALICE };
    assert!(is_valid(validate(&op, &v)));
}

#[test]
fn icon_over_the_ceiling_is_rejected() {
    let v = view();
    let mut entry = publisher_entry(GROUP_G);
    entry.icon = Some(ICON_BIG); // uncompressed size 204,801 bytes
    let op = Op::StoreEntry { entry: EntryTypes::Publisher(entry), author: ALICE };
    assert_eq!(rejection_kind(validate(&op, &v)), Some(RejectionKind::ResourceLimitError));
}

#[test]
fn uncompressed_size_wins_over_stored_size() {
    // ICON_BIG's stored size is tiny; the uncompressed size is what counts.
    let v = view();
    let mut entry = app_entry(GROUP_G);
    entry.icon = ICON_BIG;
    let op = Op::StoreEntry { entry: EntryTypes::App(entry), author: ALICE };
    assert_eq!(rejection_kind(validate(&op, &v)), Some(RejectionKind::ResourceLimitError));
}

#[test]
fn app_must_share_its_publishers_group() {
    let mut v = view();
    v.publishers[0].content.editors_group_id =
        GroupRef { group_id: ActionId(999), pinned_revision: ActionId(999) };
    let op = Op::StoreEntry { entry: EntryTypes::App(app_entry(GROUP_G)), author: ALICE };
    assert_eq!(rejection_kind(validate(&op, &v)), Some(RejectionKind::ReferentialError));
}

#[test]
fn app_create_with_unknown_publisher_is_unresolved() {
    let mut v = view();
    v.publishers.clear();
    let op = Op::StoreEntry { entry: EntryTypes::App(app_entry(GROUP_G)), author: ALICE };
    assert!(validate(&op, &v).is_err());
}

#[test]
fn app_version_author_must_match_signer() {
    let v = view();
    let op = Op::StoreEntry {
        entry: EntryTypes::AppVersion(app_version_entry(ALICE, GROUP_G)),
        author: BOB,
    };
    assert_eq!(rejection_kind(validate(&op, &v)), Some(RejectionKind::StructuralError));
}

#[test]
fn moderator_action_create_checks_author_then_membership() {
    let v = view();
    let action = ModeratorActionEntry {
        group_id: gref(GROUP_G),
        author: CAROL,
        published_at: 100,
        message: String::from("remove"),
        subject_id: APP_X,
        metadata: Metadata::new(),
    };
    let op = Op::StoreEntry { entry: EntryTypes::ModeratorAction(action.clone()), author: CAROL };
    // Carol signs her own entry, but is no contributor.
    assert_eq!(rejection_kind(validate(&op, &v)), Some(RejectionKind::AuthorizationError));
    let op = Op::StoreEntry { entry: EntryTypes::ModeratorAction(action), author: ALICE };
    // Alice signs an entry claiming Carol as author.
    assert_eq!(rejection_kind(validate(&op, &v)), Some(RejectionKind::StructuralError));
}

#[test]
fn group_anchor_create_requires_membership_at_first_revision() {
    let v = view();
    let anchor = GroupAnchorEntry { group_id: GROUP_G };
    let op = Op::StoreEntry { entry: EntryTypes::GroupAnchor(anchor), author: ALICE };
    assert!(is_valid(validate(&op, &v)));
    let op = Op::StoreEntry { entry: EntryTypes::GroupAnchor(anchor), author: CAROL };
    assert_eq!(rejection_kind(validate(&op, &v)), Some(RejectionKind::AuthorizationError));
}

#[test]
fn update_cannot_move_a_record_to_another_group() {
    let mut v = view();
    v.groups.push(Group {
        revisions: vec![GroupRevision { revision: ActionId(50), contributors: vec![ALICE] }],
    });
    let mut entry = publisher_entry(GROUP_G);
    entry.editors_group_id = GroupRef { group_id: ActionId(50), pinned_revision: ActionId(50) };
    let op = Op::RegisterUpdate {
        entry: EntryTypes::Publisher(entry),
        original: EntryTypes::Publisher(publisher_entry(GROUP_G)),
        author: ALICE,
    };
    assert_eq!(rejection_kind(validate(&op, &v)), Some(RejectionKind::ImmutabilityError));
}

#[test]
fn updating_a_deprecated_publisher_is_a_lifecycle_error() {
    let v = view();
    let mut prev = publisher_entry(GROUP_G);
    prev.deprecation = Some(DeprecationNotice {
        message: String::from("superseded"),
        recommended_alternatives: None,
    });
    let mut entry = publisher_entry(GROUP_G);
    entry.deprecation = Some(DeprecationNotice {
        message: String::from("still superseded"),
        recommended_alternatives: None,
    });
    let op = Op::RegisterUpdate {
        entry: EntryTypes::Publisher(entry),
        original: EntryTypes::Publisher(prev.clone()),
        author: ALICE,
    };
    assert_eq!(rejection_kind(validate(&op, &v)), Some(RejectionKind::LifecycleError));

    // Clearing the deprecation is the allowed un-deprecate path.
    let cleared = publisher_entry(GROUP_G);
    let op = Op::RegisterUpdate {
        entry: EntryTypes::Publisher(cleared),
        original: EntryTypes::Publisher(prev),
        author: ALICE,
    };
    assert!(is_valid(validate(&op, &v)));
}

#[test]
fn app_version_write_once_fields_are_frozen() {
    let v = view();
    let prev = app_version_entry(ALICE, GROUP_G);

    let mut changed = app_version_entry(ALICE, GROUP_G);
    changed.for_app = ActionId(999);
    let op = Op::RegisterUpdate {
        entry: EntryTypes::AppVersion(changed),
        original: EntryTypes::AppVersion(prev.clone()),
        author: ALICE,
    };
    assert_eq!(rejection_kind(validate(&op, &v)), Some(RejectionKind::ImmutabilityError));

    let mut changed = app_version_entry(ALICE, GROUP_G);
    changed.bundle_hashes.ui_hash = String::from("zz");
    let op = Op::RegisterUpdate {
        entry: EntryTypes::AppVersion(changed),
        original: EntryTypes::AppVersion(prev.clone()),
        author: ALICE,
    };
    assert_eq!(rejection_kind(validate(&op, &v)), Some(RejectionKind::ImmutabilityError));

    let mut changed = app_version_entry(ALICE, GROUP_G);
    changed.apphub_hrl_hash = EntryId(999);
    let op = Op::RegisterUpdate {
        entry: EntryTypes::AppVersion(changed),
        original: EntryTypes::AppVersion(prev),
        author: ALICE,
    };
    assert_eq!(rejection_kind(validate(&op, &v)), Some(RejectionKind::ImmutabilityError));
}

#[test]
fn app_version_update_of_metadata_and_timestamps_succeeds() {
    let v = view();
    let prev = app_version_entry(ALICE, GROUP_G);
    let mut entry = app_version_entry(ALICE, GROUP_G);
    entry.published_at = 222;
    entry.last_updated = 333;
    entry.metadata.push(
        String::from("note"),
        appstore::types::MetaValue::Text(String::from("patched")),
    );
    let op = Op::RegisterUpdate {
        entry: EntryTypes::AppVersion(entry),
        original: EntryTypes::AppVersion(prev),
        author: ALICE,
    };
    assert!(is_valid(validate(&op, &v)));
}

#[test]
fn app_version_update_cannot_rebind_the_author() {
    let v = view();
    let prev = app_version_entry(ALICE, GROUP_G);
    let entry = app_version_entry(BOB, GROUP_G);
    let op = Op::RegisterUpdate {
        entry: EntryTypes::AppVersion(entry),
        original: EntryTypes::AppVersion(prev),
        author: ALICE,
    };
    assert_eq!(rejection_kind(validate(&op, &v)), Some(RejectionKind::StructuralError));
}

#[test]
fn update_variant_must_match_previous_revision() {
    let v = view();
    let op = Op::RegisterUpdate {
        entry: EntryTypes::Publisher(publisher_entry(GROUP_G)),
        original: EntryTypes::App(app_entry(GROUP_G)),
        author: ALICE,
    };
    assert_eq!(rejection_kind(validate(&op, &v)), Some(RejectionKind::StructuralError));
}

#[test]
fn creator_may_always_delete() {
    let v = view();
    let op = Op::RegisterDelete {
        original: EntryTypes::App(app_entry(GROUP_G)),
        created_by: CAROL,
        author: CAROL,
    };
    assert!(is_valid(validate(&op, &v)));
}

#[test]
fn delete_by_non_creator_requires_current_contributor_status() {
    let v = view();
    // Bob is a contributor at the group's current tip.
    let op = Op::RegisterDelete {
        original: EntryTypes::App(app_entry(GROUP_G)),
        created_by: ALICE,
        author: BOB,
    };
    assert!(is_valid(validate(&op, &v)));
    // Alice was a contributor at the first revision, but not at the tip.
    let op = Op::RegisterDelete {
        original: EntryTypes::App(app_entry(GROUP_G)),
        created_by: BOB,
        author: ALICE,
    };
    assert_eq!(rejection_kind(validate(&op, &v)), Some(RejectionKind::AuthorizationError));
}

#[test]
fn moderation_audit_records_are_not_deletable_by_others() {
    let v = view();
    let action = ModeratorActionEntry {
        group_id: gref(GROUP_G),
        author: BOB,
        published_at: 100,
        message: String::from("remove"),
        subject_id: APP_X,
        metadata: Metadata::new(),
    };
    let op = Op::RegisterDelete {
        original: EntryTypes::ModeratorAction(action),
        created_by: BOB,
        author: ALICE,
    };
    assert_eq!(rejection_kind(validate(&op, &v)), Some(RejectionKind::AuthorizationError));
    let op = Op::RegisterDelete {
        original: EntryTypes::GroupAnchor(GroupAnchorEntry { group_id: GROUP_G }),
        created_by: BOB,
        author: ALICE,
    };
    assert_eq!(rejection_kind(validate(&op, &v)), Some(RejectionKind::AuthorizationError));
}
