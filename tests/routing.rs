use fluvio_pool::pool::{FluvioError, MetadataStores, Route, SpuPool};
use fluvio_pool::store::{PartitionMetadata, ReplicaKey, SpuMetadata};
use fluvio_pool::sync::{LoopAction, MetadataUpdate, WatchEvent};

fn partition(name: &str, leader: i32) -> PartitionMetadata {
    PartitionMetadata { name: name.to_string(), leader, replicas: vec![leader] }
}

fn spu(id: i32, host: &str, port: u16) -> SpuMetadata {
    SpuMetadata { name: format!("spu-{}", id), id, host: host.to_string(), port }
}

fn orders_pool() -> SpuPool<u32> {
    let mut pool: SpuPool<u32> = SpuPool::start(MetadataStores::start());
    let parts = MetadataUpdate { all: vec![partition("orders-0", 5), partition("orders-1", 5)], changes: vec![] };
    assert!(pool.handle_partition_event(WatchEvent::Update(parts)) == LoopAction::Continue);
    let units = MetadataUpdate { all: vec![spu(5, "10.0.0.5", 9005)], changes: vec![] };
    assert!(pool.handle_spu_event(WatchEvent::Update(units)) == LoopAction::Continue);
    pool
}

/// Plays the caller: dials where the pool says so, and counts the dials.
fn connect(pool: &mut SpuPool<u32>, key: &ReplicaKey, dials: &mut u32) -> Result<i32, FluvioError> {
    match pool.resolve(key)? {
        Route::Reuse(leader) => {
            assert!(pool.connection(leader).is_some());
            Ok(leader)
        }
        Route::Connect { leader, host, port } => {
            assert_eq!(format!("{}:{}", host, port), "10.0.0.5:9005");
            *dials += 1;
            pool.register(leader, *dials);
            Ok(leader)
        }
    }
}

#[test]
fn orders_scenario_dials_once() {
    let mut pool = orders_pool();
    let mut dials = 0u32;
    let first = connect(&mut pool, &ReplicaKey::new("orders".to_string(), 0), &mut dials);
    assert!(matches!(first, Ok(5)));
    assert_eq!(dials, 1);
    let second = connect(&mut pool, &ReplicaKey::new("orders".to_string(), 1), &mut dials);
    assert!(matches!(second, Ok(5)));
    assert_eq!(dials, 1);
    assert_eq!(pool.connection(5), Some(&1));
    match connect(&mut pool, &ReplicaKey::new("missing".to_string(), 0), &mut dials) {
        Err(FluvioError::PartitionNotFound(topic, index)) => {
            assert_eq!(topic, "missing");
            assert_eq!(index, 0);
        }
        _ => panic!("expected a routing error"),
    }
    assert_eq!(dials, 1);
}

#[test]
fn first_resolve_asks_for_a_dial() {
    let pool = orders_pool();
    match pool.resolve(&ReplicaKey::new("orders".to_string(), 1)) {
        Ok(Route::Connect { leader, host, port }) => {
            assert_eq!(leader, 5);
            assert_eq!(host, "10.0.0.5");
            assert_eq!(port, 9005);
        }
        _ => panic!("expected a dial"),
    }
}

#[test]
fn unknown_partition_is_a_routing_error() {
    let pool = orders_pool();
    match pool.resolve(&ReplicaKey::new("orders".to_string(), 2)) {
        Err(FluvioError::PartitionNotFound(topic, index)) => {
            assert_eq!(topic, "orders");
            assert_eq!(index, 2);
        }
        _ => panic!("expected a routing error"),
    }
    match pool.resolve(&ReplicaKey::new("order".to_string(), 0)) {
        Err(FluvioError::PartitionNotFound(topic, index)) => {
            assert_eq!(topic, "order");
            assert_eq!(index, 0);
        }
        _ => panic!("expected a routing error"),
    }
}

#[test]
fn empty_pool_knows_no_partition() {
    let pool: SpuPool<u32> = SpuPool::start(MetadataStores::start());
    assert!(matches!(
        pool.resolve(&ReplicaKey::new("orders".to_string(), 0)),
        Err(FluvioError::PartitionNotFound(_, 0))
    ));
    assert!(pool.connection(5).is_none());
}

#[test]
fn unknown_leader_is_a_routing_error() {
    let mut pool: SpuPool<u32> = SpuPool::start(MetadataStores::start());
    let parts = MetadataUpdate { all: vec![partition("logs-3", 9)], changes: vec![] };
    pool.handle_partition_event(WatchEvent::Update(parts));
    assert!(matches!(
        pool.resolve(&ReplicaKey::new("logs".to_string(), 3)),
        Err(FluvioError::SpuNotFound(9))
    ));
}

#[test]
fn leader_change_routes_to_the_new_leader() {
    let mut pool = orders_pool();
    pool.register(5, 1);
    let parts = MetadataUpdate { all: vec![partition("orders-0", 6)], changes: vec![] };
    pool.handle_partition_event(WatchEvent::Update(parts));
    let units = MetadataUpdate { all: vec![spu(6, "10.0.0.6", 9006)], changes: vec![] };
    pool.handle_spu_event(WatchEvent::Update(units));
    match pool.resolve(&ReplicaKey::new("orders".to_string(), 0)) {
        Ok(Route::Connect { leader, host, port }) => {
            assert_eq!(leader, 6);
            assert_eq!(host, "10.0.0.6");
            assert_eq!(port, 9006);
        }
        _ => panic!("expected a dial"),
    }
    assert!(matches!(
        pool.resolve(&ReplicaKey::new("orders".to_string(), 1)),
        Err(FluvioError::PartitionNotFound(_, 1))
    ));
}

#[test]
fn pool_shutdown_sets_the_signal_and_is_idempotent() {
    let mut pool = orders_pool();
    assert!(!pool.metadata().shutdown_signal().is_set());
    pool.shutdown();
    assert!(pool.metadata().shutdown_signal().is_set());
    pool.shutdown();
    assert!(pool.metadata().shutdown_signal().is_set());
    assert_eq!(pool.metadata().partitions().len(), 2);
}
