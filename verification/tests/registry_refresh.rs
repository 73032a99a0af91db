use tidvatten::registry::Registry;
use tidvatten::registry::SharedRegistry;
use tidvatten::remote::keepers_url;
use tidvatten::remote::refresh_keepers;
use tidvatten::remote::FetchError;
use tidvatten::remote::KeeperSnapshot;

#[test]
fn registry_starts_empty() {
    let registry = Registry::new();
    assert_eq!(registry.len(), 0);
    assert!(!registry.contains_id(7));
    assert!(registry.username_of(7).is_none());
}

#[test]
fn keepers_url_appends_the_fixed_path() {
    assert_eq!(
        keepers_url("https://example.org"),
        "https://example.org/static/keepers_user_data"
    );
}

#[test]
fn one_refresh_cycle_installs_exactly_the_fetched_records() {
    let mut registry = Registry::new();
    let snapshot = KeeperSnapshot::from_entries(1700000000, vec![(7, "alice".to_owned())]);
    assert_eq!(snapshot.fetched_at, 1700000000);
    refresh_keepers(&mut registry, Ok(snapshot));
    assert_eq!(registry.len(), 1);
    assert_eq!(registry.username_of(7).unwrap(), "alice");
}

#[test]
fn successful_fetch_replaces_rather_than_merges() {
    let mut registry = Registry::new();
    let first = KeeperSnapshot::from_entries(100, vec![(1, "old".to_owned()), (2, "kept".to_owned())]);
    refresh_keepers(&mut registry, Ok(first));
    let second = KeeperSnapshot::from_entries(200, vec![(2, "fresh".to_owned()), (3, "new".to_owned())]);
    refresh_keepers(&mut registry, Ok(second));
    assert_eq!(registry.len(), 2);
    assert!(!registry.contains_id(1));
    assert_eq!(registry.username_of(2).unwrap(), "fresh");
    assert_eq!(registry.username_of(3).unwrap(), "new");
}

#[test]
fn transport_failure_keeps_the_previous_state() {
    let mut registry = Registry::new();
    let snapshot = KeeperSnapshot::from_entries(100, vec![(7, "alice".to_owned())]);
    refresh_keepers(&mut registry, Ok(snapshot));
    refresh_keepers(&mut registry, Err(FetchError::Transport("connect refused".to_owned())));
    assert_eq!(registry.len(), 1);
    assert_eq!(registry.username_of(7).unwrap(), "alice");
}

#[test]
fn decode_failure_keeps_the_previous_state() {
    let mut registry = Registry::new();
    let snapshot = KeeperSnapshot::from_entries(100, vec![(7, "alice".to_owned())]);
    refresh_keepers(&mut registry, Ok(snapshot));
    refresh_keepers(&mut registry, Err(FetchError::Decode("missing field".to_owned())));
    assert_eq!(registry.len(), 1);
    assert_eq!(registry.username_of(7).unwrap(), "alice");
}

#[test]
fn later_entry_for_the_same_id_wins() {
    let snapshot = KeeperSnapshot::from_entries(
        0,
        vec![(1, "first".to_owned()), (1, "second".to_owned())],
    );
    let mut registry = Registry::new();
    refresh_keepers(&mut registry, Ok(snapshot));
    assert_eq!(registry.len(), 1);
    assert_eq!(registry.username_of(1).unwrap(), "second");
}

#[test]
fn snapshot_reports_its_record_count() {
    let snapshot = KeeperSnapshot::from_entries(
        0,
        vec![(1, "a".to_owned()), (2, "b".to_owned())],
    );
    assert_eq!(snapshot.record_count(), 2);
}

#[test]
fn shared_registry_swaps_whole_snapshots() {
    let shared = SharedRegistry::new();
    assert_eq!(shared.len(), 0);
    let first = KeeperSnapshot::from_entries(0, vec![(1, "old".to_owned())]);
    shared.replace(first.records);
    assert_eq!(shared.len(), 1);
    assert_eq!(shared.username_of(1).unwrap(), "old");
    let second = KeeperSnapshot::from_entries(0, vec![(2, "new".to_owned())]);
    shared.replace(second.records);
    assert_eq!(shared.len(), 1);
    assert!(!shared.contains_id(1));
    assert_eq!(shared.username_of(2).unwrap(), "new");
}

#[test]
fn read_sees_one_complete_snapshot() {
    let mut registry = Registry::new();
    let old_snapshot = KeeperSnapshot::from_entries(0, vec![(1, "old".to_owned())]);
    refresh_keepers(&mut registry, Ok(old_snapshot));
    let before = registry.read().clone();
    let new_snapshot = KeeperSnapshot::from_entries(0, vec![(2, "new".to_owned())]);
    refresh_keepers(&mut registry, Ok(new_snapshot));
    let after = registry.read().clone();
    assert!(!(before.contains_key(&1) && before.contains_key(&2)));
    assert!(!(after.contains_key(&1) && after.contains_key(&2)));
}
