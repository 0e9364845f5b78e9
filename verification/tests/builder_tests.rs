//! Entry builders, catalog queries, the group resolver and the metadata
//! map, on concrete values.

use appstore::app;
use appstore::app_version;
use appstore::group::Group;
use appstore::publisher;
use appstore::store::{Record, RecordView, MemoryEntry};
use appstore::types::CommonFields;
use appstore::types::{
    ActionId, AgentKey, AppEntry, AppVersionEntry, BundleHashes, DnaId, EntryId, GroupRef,
    Metadata, MetaValue, PublisherEntry, WebAddress, HRL,
};

const ALICE: AgentKey = AgentKey(1);
const BOB: AgentKey = AgentKey(2);
const GROUP_G: ActionId = ActionId(10);
const GROUP_R2: ActionId = ActionId(11);
const GROUP_H: ActionId = ActionId(12);
const PUB_P: ActionId = ActionId(20);
const APP_X: ActionId = ActionId(30);
const APP_Y: ActionId = ActionId(31);

fn gref(group: ActionId, pin: ActionId) -> GroupRef {
    GroupRef { group_id: group, pinned_revision: pin }
}

fn sample_app(id_seed: u64, group: ActionId, deprecated: bool) -> AppEntry {
    AppEntry {
        title: String::from("App"),
        subtitle: String::from("An app"),
        description: String::from("An app"),
        icon: EntryId(40),
        publisher: PUB_P,
        apphub_hrl: HRL { dna: DnaId(7), target: EntryId(id_seed) },
        apphub_hrl_hash: EntryId(id_seed + 1),
        editors_group_id: gref(group, group),
        published_at: 100,
        last_updated: 100,
        metadata: Metadata::new(),
        deprecation: if deprecated {
            Some(appstore::types::DeprecationNotice {
                message: String::from("old"),
                recommended_alternatives: None,
            })
        } else {
            None
        },
    }
}

#[test]
fn group_resolver_walks_the_chain() {
    let mut g = Group::create_group(GROUP_G, vec![ALICE, BOB]);
    assert_eq!(g.id(), GROUP_G);
    assert_eq!(g.latest_revision(), GROUP_G);
    g.update_group(GROUP_R2, vec![BOB]);
    assert_eq!(g.id(), GROUP_G);
    assert_eq!(g.latest_revision(), GROUP_R2);
    assert!(g.has_revision(GROUP_G));
    assert!(g.has_revision(GROUP_R2));
    assert!(!g.has_revision(ActionId(999)));
    assert!(g.is_contributor_at(GROUP_G, ALICE));
    assert!(!g.is_contributor_at(GROUP_R2, ALICE));
    assert!(g.is_contributor_at(GROUP_R2, BOB));
    assert!(!g.is_contributor_at(ActionId(999), BOB));
    assert_eq!(g.contributors_at(GROUP_G), Some(&vec![ALICE, BOB]));
    assert_eq!(g.contributors_at(GROUP_R2), Some(&vec![BOB]));
    assert_eq!(g.contributors_at(ActionId(999)), None);
}

#[test]
fn common_fields_expose_timestamps_and_metadata() {
    let app = sample_app(70, GROUP_G, false);
    assert_eq!(app.published_at(), 100);
    assert_eq!(app.last_updated(), 100);
    assert!(app.metadata().entries.is_empty());
}

#[test]
fn metadata_returns_the_bound_value() {
    let mut m = Metadata::new();
    m.push(String::from("remove"), MetaValue::Boolean(true));
    m.push(String::from("note"), MetaValue::Text(String::from("spam")));
    assert_eq!(m.get(&String::from("remove")), Some(&MetaValue::Boolean(true)));
    assert_eq!(m.get(&String::from("note")), Some(&MetaValue::Text(String::from("spam"))));
    assert_eq!(m.get(&String::from("missing")), None);
}

#[test]
fn bundle_hashes_compare_by_digests() {
    let a = BundleHashes {
        hash: String::from("aa"),
        ui_hash: String::from("bb"),
        happ_hash: String::from("cc"),
    };
    let b = BundleHashes {
        hash: String::from("aa"),
        ui_hash: String::from("bb"),
        happ_hash: String::from("cc"),
    };
    let c = BundleHashes {
        hash: String::from("aa"),
        ui_hash: String::from("zz"),
        happ_hash: String::from("cc"),
    };
    assert!(a.same(&b));
    assert!(!a.same(&c));
}

#[test]
fn create_publisher_fills_defaults() {
    let input = publisher::CreateInput {
        name: String::from("Acme"),
        location: String::from("Utrecht"),
        website: WebAddress { url: String::from("https://acme.example"), context: None },
        editors_group_id: gref(GROUP_G, GROUP_G),
        description: None,
        email: None,
        icon: None,
        published_at: Some(50),
        last_updated: None,
        metadata: None,
    };
    let entry = publisher::create_publisher(input, 777);
    assert_eq!(entry.published_at, 50);
    assert_eq!(entry.last_updated, 777);
    assert!(entry.metadata.entries.is_empty());
    assert!(entry.deprecation.is_none());
    assert_eq!(entry.name, String::from("Acme"));
}

#[test]
fn update_publisher_folds_properties_and_repins() {
    let current = publisher::create_publisher(
        publisher::CreateInput {
            name: String::from("Acme"),
            location: String::from("Utrecht"),
            website: WebAddress { url: String::from("https://acme.example"), context: None },
            editors_group_id: gref(GROUP_G, GROUP_G),
            description: None,
            email: None,
            icon: None,
            published_at: None,
            last_updated: None,
            metadata: None,
        },
        100,
    );
    let props = publisher::UpdateProperties {
        name: Some(String::from("Acme Labs")),
        description: None,
        location: None,
        website: None,
        icon: Some(EntryId(90)),
        email: None,
        published_at: None,
        last_updated: Some(200),
        metadata: None,
    };
    let updated = publisher::update_publisher(current, props, GROUP_R2);
    assert_eq!(updated.name, String::from("Acme Labs"));
    assert_eq!(updated.location, String::from("Utrecht"));
    assert_eq!(updated.icon, Some(EntryId(90)));
    assert_eq!(updated.published_at, 100);
    assert_eq!(updated.last_updated, 200);
    assert_eq!(updated.editors_group_id, gref(GROUP_G, GROUP_R2));
}

#[test]
fn deprecate_and_undeprecate_publisher_toggle_the_notice() {
    let current = publisher::create_publisher(
        publisher::CreateInput {
            name: String::from("Acme"),
            location: String::from("Utrecht"),
            website: WebAddress { url: String::from("https://acme.example"), context: None },
            editors_group_id: gref(GROUP_G, GROUP_G),
            description: None,
            email: None,
            icon: None,
            published_at: None,
            last_updated: None,
            metadata: None,
        },
        100,
    );
    let deprecated = publisher::deprecate_publisher(current, String::from("closed"), GROUP_R2);
    match &deprecated.deprecation {
        Some(notice) => {
            assert_eq!(notice.message, String::from("closed"));
            assert!(notice.recommended_alternatives.is_none());
        },
        None => panic!("expected a deprecation notice"),
    }
    let restored = publisher::undeprecate_publisher(deprecated, GROUP_R2);
    assert!(restored.deprecation.is_none());
}

#[test]
fn create_app_defaults_to_the_publishers_group() {
    let input = app::CreateInput {
        title: String::from("Chess"),
        subtitle: String::from("Play chess"),
        description: String::from("A chess app"),
        icon: EntryId(40),
        publisher: PUB_P,
        apphub_hrl: HRL { dna: DnaId(7), target: EntryId(70) },
        apphub_hrl_hash: EntryId(71),
        editors_group_id: None,
        published_at: None,
        last_updated: None,
        metadata: None,
    };
    let entry = app::create_app(input, gref(GROUP_G, GROUP_R2), 400);
    assert_eq!(entry.editors_group_id, gref(GROUP_G, GROUP_R2));
    assert_eq!(entry.published_at, 400);
    assert_eq!(entry.last_updated, 400);

    let input = app::CreateInput {
        title: String::from("Chess"),
        subtitle: String::from("Play chess"),
        description: String::from("A chess app"),
        icon: EntryId(40),
        publisher: PUB_P,
        apphub_hrl: HRL { dna: DnaId(7), target: EntryId(70) },
        apphub_hrl_hash: EntryId(71),
        editors_group_id: Some(gref(GROUP_H, GROUP_H)),
        published_at: None,
        last_updated: None,
        metadata: None,
    };
    let entry = app::create_app(input, gref(GROUP_G, GROUP_R2), 400);
    assert_eq!(entry.editors_group_id, gref(GROUP_H, GROUP_H));
}

#[test]
fn update_app_keeps_the_publisher_and_repins() {
    let current = sample_app(70, GROUP_G, false);
    let props = app::UpdateProperties {
        title: Some(String::from("Chess Deluxe")),
        subtitle: None,
        description: None,
        icon: None,
        apphub_hrl: None,
        apphub_hrl_hash: None,
        published_at: None,
        last_updated: None,
        metadata: None,
    };
    let updated = app::update_app(current, props, GROUP_R2);
    assert_eq!(updated.title, String::from("Chess Deluxe"));
    assert_eq!(updated.publisher, PUB_P);
    assert_eq!(updated.editors_group_id, gref(GROUP_G, GROUP_R2));
}

#[test]
fn deprecate_and_undeprecate_app_toggle_the_notice() {
    let current = sample_app(70, GROUP_G, false);
    let deprecated = app::deprecate_app(current, String::from("superseded"), GROUP_R2);
    assert!(deprecated.deprecation.is_some());
    let restored = app::undeprecate_app(deprecated, GROUP_R2);
    assert!(restored.deprecation.is_none());
}

#[test]
fn create_app_version_binds_the_author() {
    let input = app_version::CreateInput {
        version: String::from("1.0.0"),
        for_app: APP_X,
        apphub_hrl: HRL { dna: DnaId(7), target: EntryId(72) },
        apphub_hrl_hash: EntryId(73),
        bundle_hashes: BundleHashes {
            hash: String::from("aa"),
            ui_hash: String::from("bb"),
            happ_hash: String::from("cc"),
        },
        editors_group_id: gref(GROUP_G, GROUP_G),
        published_at: None,
        last_updated: None,
        metadata: None,
    };
    let entry = app_version::create_app_version(input, ALICE, 300);
    assert_eq!(entry.author, ALICE);
    assert_eq!(entry.published_at, 300);
    assert_eq!(entry.version, String::from("1.0.0"));
}

#[test]
fn update_app_version_leaves_write_once_fields_alone() {
    let input = app_version::CreateInput {
        version: String::from("1.0.0"),
        for_app: APP_X,
        apphub_hrl: HRL { dna: DnaId(7), target: EntryId(72) },
        apphub_hrl_hash: EntryId(73),
        bundle_hashes: BundleHashes {
            hash: String::from("aa"),
            ui_hash: String::from("bb"),
            happ_hash: String::from("cc"),
        },
        editors_group_id: gref(GROUP_G, GROUP_G),
        published_at: None,
        last_updated: None,
        metadata: None,
    };
    let current = app_version::create_app_version(input, ALICE, 300);
    let props = app_version::UpdateProperties {
        version: Some(String::from("1.0.1")),
        published_at: None,
        last_updated: Some(400),
        metadata: None,
    };
    let updated = app_version::update_app_version(current, props, BOB);
    assert_eq!(updated.version, String::from("1.0.1"));
    assert_eq!(updated.author, BOB);
    assert_eq!(updated.for_app, APP_X);
    assert_eq!(updated.apphub_hrl_hash, EntryId(73));
    assert!(updated.bundle_hashes.same(&BundleHashes {
        hash: String::from("aa"),
        ui_hash: String::from("bb"),
        happ_hash: String::from("cc"),
    }));
}

#[test]
fn catalog_queries_filter_by_deprecation_group_and_app() {
    let apps = vec![
        Record { id: APP_X, address: EntryId(130), created_by: ALICE, content: sample_app(70, GROUP_G, false) },
        Record { id: APP_Y, address: EntryId(131), created_by: ALICE, content: sample_app(80, GROUP_H, true) },
        Record { id: ActionId(32), address: EntryId(132), created_by: BOB, content: sample_app(90, GROUP_H, false) },
    ];
    assert_eq!(app::get_all_apps(&apps), vec![APP_X, ActionId(32)]);
    assert_eq!(app::get_apps_for_group(&apps, GROUP_H), vec![APP_Y, ActionId(32)]);
    assert_eq!(
        app::get_apps_for_agent(&apps, &vec![GROUP_H, GROUP_G]),
        vec![APP_Y, ActionId(32), APP_X],
    );

    let versions = vec![
        Record {
            id: ActionId(60),
            address: EntryId(160),
            created_by: ALICE,
            content: app_version::create_app_version(
                app_version::CreateInput {
                    version: String::from("1.0.0"),
                    for_app: APP_X,
                    apphub_hrl: HRL { dna: DnaId(7), target: EntryId(72) },
                    apphub_hrl_hash: EntryId(73),
                    bundle_hashes: BundleHashes {
                        hash: String::from("aa"),
                        ui_hash: String::from("bb"),
                        happ_hash: String::from("cc"),
                    },
                    editors_group_id: gref(GROUP_G, GROUP_G),
                    published_at: None,
                    last_updated: None,
                    metadata: None,
                },
                ALICE,
                300,
            ),
        },
    ];
    assert_eq!(app_version::get_app_versions_for_app(&versions, APP_X), vec![ActionId(60)]);
    assert_eq!(app_version::get_app_versions_for_app(&versions, APP_Y), Vec::<ActionId>::new());
}

#[test]
fn publisher_queries_filter_by_deprecation_and_group() {
    let make = |group: ActionId, deprecated: bool| PublisherEntry {
        name: String::from("Acme"),
        location: String::from("Utrecht"),
        website: WebAddress { url: String::from("https://acme.example"), context: None },
        editors_group_id: gref(group, group),
        published_at: 100,
        last_updated: 100,
        metadata: Metadata::new(),
        description: None,
        email: None,
        icon: None,
        deprecation: if deprecated {
            Some(appstore::types::DeprecationNotice {
                message: String::from("old"),
                recommended_alternatives: None,
            })
        } else {
            None
        },
    };
    let publishers = vec![
        Record { id: PUB_P, address: EntryId(120), created_by: ALICE, content: make(GROUP_G, false) },
        Record { id: ActionId(21), address: EntryId(121), created_by: ALICE, content: make(GROUP_H, true) },
    ];
    assert_eq!(publisher::get_all_publishers(&publishers), vec![PUB_P]);
    assert_eq!(publisher::get_publishers_for_group(&publishers, GROUP_H), vec![ActionId(21)]);
    assert_eq!(
        publisher::get_publishers_for_agent(&publishers, &vec![GROUP_G, GROUP_H]),
        vec![PUB_P, ActionId(21)],
    );
}

#[test]
fn memory_entry_reports_uncompressed_size_when_known() {
    let stored_only = MemoryEntry { address: EntryId(40), memory_size: 1000, uncompressed_size: None };
    assert_eq!(stored_only.reported_size(), 1000);
    let with_uncompressed =
        MemoryEntry { address: EntryId(41), memory_size: 1000, uncompressed_size: Some(5000) };
    assert_eq!(with_uncompressed.reported_size(), 5000);
}

#[test]
fn record_view_lookups_resolve_by_identity() {
    let view = RecordView {
        groups: vec![Group::create_group(GROUP_G, vec![ALICE])],
        publishers: vec![],
        apps: vec![Record { id: APP_X, address: EntryId(130), created_by: ALICE, content: sample_app(70, GROUP_G, false) }],
        app_versions: vec![],
        moderator_actions: vec![],
        group_anchors: vec![],
        memories: vec![],
        all_apps_anchor: EntryId(200),
        all_publishers_anchor: EntryId(201),
    };
    assert!(view.group(GROUP_G).is_some());
    assert!(view.group(ActionId(999)).is_none());
    assert!(view.app(APP_X).is_some());
    assert!(view.app(APP_Y).is_none());
    assert!(view.publisher(PUB_P).is_none());
}
