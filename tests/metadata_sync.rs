use fluvio_pool::signal::{Listen, SimpleEvent};
use fluvio_pool::status::StartStatus;
use fluvio_pool::store::{MetadataStore, PartitionMetadata, PartitionObject, ReplicaKey, SpuMetadata, SpuObject};
use fluvio_pool::sync::{process_updates, LoopAction, MetadataSyncController, MetadataUpdate, SyncError, WatchEvent};
use fluvio_pool::text::{parse_partition_name, same_text};

fn partition(name: &str, leader: i32) -> PartitionMetadata {
    PartitionMetadata { name: name.to_string(), leader, replicas: vec![leader, leader + 1] }
}

fn snapshot(items: Vec<PartitionMetadata>) -> MetadataUpdate<PartitionMetadata> {
    MetadataUpdate { all: items, changes: vec![] }
}

fn leader_of(store: &MetadataStore<PartitionObject>, topic: &str, index: i32) -> Option<i32> {
    store.lookup_by_key(&ReplicaKey::new(topic.to_string(), index)).map(|p| p.leader)
}

#[test]
fn shutdown_signal_stays_set() {
    let mut signal = SimpleEvent::shared();
    assert!(!signal.is_set());
    assert!(matches!(signal.listen(), Listen::Wait(_)));
    signal.notify();
    assert!(signal.is_set());
    assert!(signal.is_set());
    assert!(matches!(signal.listen(), Listen::Ready));
    signal.notify();
    assert!(signal.is_set());
    assert!(matches!(signal.listen(), Listen::Ready));
}

#[test]
fn full_snapshot_replaces_the_store() {
    let mut store: MetadataStore<PartitionObject> = MetadataStore::new();
    assert!(process_updates(&mut store, snapshot(vec![partition("a-0", 1), partition("b-1", 2)])).is_ok());
    assert_eq!(store.len(), 2);
    assert!(process_updates(&mut store, snapshot(vec![partition("c-7", 3)])).is_ok());
    assert_eq!(store.len(), 1);
    assert_eq!(leader_of(&store, "a", 0), None);
    assert_eq!(leader_of(&store, "c", 7), Some(3));
    let p = store.lookup_by_key(&ReplicaKey::new("c".to_string(), 7)).unwrap();
    assert_eq!(p.replicas, vec![3, 4]);
}

#[test]
fn empty_snapshot_keeps_the_store() {
    let mut store: MetadataStore<PartitionObject> = MetadataStore::new();
    process_updates(&mut store, snapshot(vec![partition("a-0", 1)])).unwrap();
    assert!(process_updates(&mut store, snapshot(vec![])).is_ok());
    assert_eq!(store.len(), 1);
    assert_eq!(leader_of(&store, "a", 0), Some(1));
}

#[test]
fn same_snapshot_twice_is_same_as_once() {
    let mut once: MetadataStore<PartitionObject> = MetadataStore::new();
    let mut twice: MetadataStore<PartitionObject> = MetadataStore::new();
    let items = || vec![partition("orders-0", 5), partition("orders-1", 6)];
    process_updates(&mut once, snapshot(items())).unwrap();
    process_updates(&mut twice, snapshot(items())).unwrap();
    process_updates(&mut twice, snapshot(items())).unwrap();
    assert_eq!(once.len(), twice.len());
    for i in 0..2 {
        assert_eq!(leader_of(&once, "orders", i), leader_of(&twice, "orders", i));
    }
    assert_eq!(leader_of(&twice, "orders", 1), Some(6));
}

#[test]
fn bad_item_rejects_the_whole_batch() {
    let mut store: MetadataStore<PartitionObject> = MetadataStore::new();
    process_updates(&mut store, snapshot(vec![partition("old-0", 1)])).unwrap();
    let batch = snapshot(vec![partition("new-0", 2), partition("broken", 3), partition("new-1", 4)]);
    assert!(matches!(process_updates(&mut store, batch), Err(SyncError::InvalidData)));
    assert_eq!(store.len(), 1);
    assert_eq!(leader_of(&store, "old", 0), Some(1));
    assert_eq!(leader_of(&store, "new", 0), None);
}

#[test]
fn decode_failure_does_not_stop_the_loop() {
    let mut c = MetadataSyncController::start(MetadataStore::<PartitionObject>::new());
    assert!(c.handle(WatchEvent::DecodeFailed) == LoopAction::Continue);
    assert!(c.is_running());
    assert_eq!(c.store().len(), 0);
    assert!(c.handle(WatchEvent::Update(snapshot(vec![partition("t-4", 8)]))) == LoopAction::Continue);
    assert_eq!(leader_of(c.store(), "t", 4), Some(8));
}

#[test]
fn rejected_update_does_not_stop_the_loop() {
    let mut c = MetadataSyncController::start(MetadataStore::<PartitionObject>::new());
    let r = c.handle(WatchEvent::Update(snapshot(vec![partition("t-x", 8)])));
    assert!(r == LoopAction::Rejected(SyncError::InvalidData));
    assert!(c.is_running());
    assert_eq!(c.store().len(), 0);
    c.handle(WatchEvent::Update(snapshot(vec![partition("t-1", 2)])));
    assert_eq!(leader_of(c.store(), "t", 1), Some(2));
}

#[test]
fn stream_end_error_and_shutdown_stop_the_loop() {
    let events: Vec<fn() -> WatchEvent<PartitionMetadata>> =
        vec![|| WatchEvent::StreamEnded, || WatchEvent::StreamFailed, || WatchEvent::Shutdown];
    for make in events {
        let mut c = MetadataSyncController::start(MetadataStore::<PartitionObject>::new());
        c.handle(WatchEvent::Update(snapshot(vec![partition("t-0", 1)])));
        assert!(c.handle(make()) == LoopAction::Stop);
        assert!(!c.is_running());
        assert!(c.handle(WatchEvent::Update(snapshot(vec![partition("u-0", 1)]))) == LoopAction::Stop);
        assert_eq!(leader_of(c.store(), "t", 0), Some(1));
        assert_eq!(leader_of(c.store(), "u", 0), None);
    }
}

#[test]
fn spu_snapshot_is_cached_by_id() {
    let mut store: MetadataStore<SpuObject> = MetadataStore::new();
    let units = MetadataUpdate {
        all: vec![
            SpuMetadata { name: "a".to_string(), id: 1, host: "h1".to_string(), port: 9001 },
            SpuMetadata { name: "b".to_string(), id: 2, host: "h2".to_string(), port: 9002 },
        ],
        changes: vec![],
    };
    process_updates(&mut store, units).unwrap();
    let u = store.look_up_by_id(2).unwrap();
    assert_eq!(u.host, "h2");
    assert_eq!(u.port, 9002);
    assert_eq!(u.name, "b");
    assert!(store.look_up_by_id(3).is_none());
}

#[test]
fn partition_names_split_at_the_last_dash() {
    assert_eq!(parse_partition_name("orders-0"), Some(("orders".to_string(), 0)));
    assert_eq!(parse_partition_name("my-topic-12"), Some(("my-topic".to_string(), 12)));
    assert_eq!(parse_partition_name("-3"), Some(("".to_string(), 3)));
    assert_eq!(parse_partition_name("t-2147483647"), Some(("t".to_string(), 2147483647)));
    assert_eq!(parse_partition_name("t-2147483648"), None);
    assert_eq!(parse_partition_name("t-99999999999"), None);
    assert_eq!(parse_partition_name("nodash"), None);
    assert_eq!(parse_partition_name("t-"), None);
    assert_eq!(parse_partition_name("t-1x"), None);
    assert_eq!(parse_partition_name("t-+1"), None);
    assert_eq!(parse_partition_name(""), None);
}

#[test]
fn text_comparison() {
    assert!(same_text("orders", "orders"));
    assert!(same_text("", ""));
    assert!(!same_text("orders", "order"));
    assert!(!same_text("orders", "orderz"));
}

#[test]
fn start_status_getters() {
    let s = StartStatus::new("10.0.0.1".to_string(), 9003);
    assert_eq!(s.address(), "10.0.0.1");
    assert_eq!(s.port(), 9003);
}
