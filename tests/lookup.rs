use release_train::catalog::{default_packages, select_packages};
use release_train::lookup::{tag_name, versions, PackageRecord, WorkspaceMetadata};

fn record(id: &str, name: &str, version: &str) -> PackageRecord {
    PackageRecord { id: id.to_string(), name: name.to_string(), version: version.to_string() }
}

#[test]
fn tag_joins_package_and_version() {
    assert_eq!(tag_name("pkgA", "1.2.3"), "pkgA-v1.2.3");
    assert_eq!(tag_name("crux_core", "0.10.0-rc.1"), "crux_core-v0.10.0-rc.1");
}

#[test]
fn versions_of_members_only() {
    let meta = WorkspaceMetadata {
        members: vec!["a-id".to_string(), "b-id".to_string()],
        packages: vec![
            record("dep-id", "serde", "1.0.0"),
            record("b-id", "b", "0.2.0"),
            record("a-id", "a", "0.1.0"),
        ],
    };
    let lookup = versions(&meta).unwrap();
    assert_eq!(lookup.get(&"a".to_string()), Some("0.1.0".to_string()));
    assert_eq!(lookup.get(&"b".to_string()), Some("0.2.0".to_string()));
    assert_eq!(lookup.get(&"serde".to_string()), None);
}

#[test]
fn versions_take_the_first_record_of_an_id() {
    let meta = WorkspaceMetadata {
        members: vec!["a-id".to_string()],
        packages: vec![record("a-id", "a", "1.0.0"), record("a-id", "a", "9.9.9")],
    };
    assert_eq!(versions(&meta).unwrap().get(&"a".to_string()), Some("1.0.0".to_string()));
}

#[test]
fn versions_later_member_of_same_name_wins() {
    let meta = WorkspaceMetadata {
        members: vec!["x1".to_string(), "x2".to_string()],
        packages: vec![record("x1", "x", "1.0.0"), record("x2", "x", "2.0.0")],
    };
    assert_eq!(versions(&meta).unwrap().get(&"x".to_string()), Some("2.0.0".to_string()));
}

#[test]
fn versions_report_the_first_member_without_record() {
    let meta = WorkspaceMetadata {
        members: vec!["a-id".to_string(), "gone-1".to_string(), "gone-2".to_string()],
        packages: vec![record("a-id", "a", "1.0.0")],
    };
    assert_eq!(versions(&meta).err(), Some("gone-1".to_string()));
}

#[test]
fn versions_of_empty_workspace() {
    let meta = WorkspaceMetadata { members: Vec::new(), packages: Vec::new() };
    assert_eq!(versions(&meta).unwrap().get(&"a".to_string()), None);
}

#[test]
fn catalog_in_release_order() {
    assert_eq!(
        default_packages(),
        vec![
            "crux_cli",
            "crux_macros",
            "crux_core",
            "crux_http",
            "crux_kv",
            "crux_platform",
            "crux_time"
        ]
    );
}

#[test]
fn selection_defaults_to_catalog() {
    assert_eq!(select_packages(Vec::new()), default_packages());
    let requested = vec!["b".to_string(), "a".to_string(), "a".to_string()];
    assert_eq!(select_packages(requested.clone()), requested);
}
