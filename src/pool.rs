use vstd::prelude::*;
use std::collections::HashMap;
use crate::signal::SimpleEvent;
use crate::store::{
    find_partition,
    find_spu,
    MetadataStore,
    PartitionObject,
    PartitionView,
    ReplicaKey,
    SpuObject,
    SpuView,
};
use crate::sync::{next_state, LoopAction, MetadataSyncController, WatchEvent};

verus! {

broadcast use vstd::std_specs::hash::group_hash_axioms;

/// The metadata caches that routing reads, each kept by its own controller,
/// and the signal that stops them.
pub struct MetadataStores {
    partitions: MetadataSyncController<PartitionObject>,
    spus: MetadataSyncController<SpuObject>,
    shutdown: SimpleEvent,
}

impl MetadataStores {
    pub closed spec fn spec_partitions(&self) -> Seq<PartitionView> {
        self.partitions.spec_store()
    }

    pub closed spec fn spec_spus(&self) -> Seq<SpuView> {
        self.spus.spec_store()
    }

    pub closed spec fn spec_partitions_running(&self) -> bool {
        self.partitions.spec_running()
    }

    pub closed spec fn spec_spus_running(&self) -> bool {
        self.spus.spec_running()
    }

    pub closed spec fn spec_shut_down(&self) -> bool {
        self.shutdown.spec_is_set()
    }

    /// Empty caches with running controllers, not shut down.
    pub fn start() -> (r: MetadataStores)
        ensures
            r.spec_partitions() == Seq::<PartitionView>::empty(),
            r.spec_spus() == Seq::<SpuView>::empty(),
            r.spec_partitions_running(),
            r.spec_spus_running(),
            !r.spec_shut_down(),
    {
        MetadataStores {
            partitions: MetadataSyncController::start(MetadataStore::new()),
            spus: MetadataSyncController::start(MetadataStore::new()),
            shutdown: SimpleEvent::shared(),
        }
    }

    /// The cached partitions.
    pub fn partitions(&self) -> (r: &MetadataStore<PartitionObject>)
        ensures
            r@ == self.spec_partitions(),
    {
        self.partitions.store()
    }

    /// The cached storage units.
    pub fn spus(&self) -> (r: &MetadataStore<SpuObject>)
        ensures
            r@ == self.spec_spus(),
    {
        self.spus.store()
    }

    /// The signal that the dispatch loops observe.
    pub fn shutdown_signal(&self) -> (r: &SimpleEvent)
        ensures
            r.spec_is_set() == self.spec_shut_down(),
    {
        &self.shutdown
    }

    /// Hands one event of the partition watch to its controller.
    pub fn handle_partition_event(&mut self, e: WatchEvent<crate::store::PartitionMetadata>) -> (r:
        LoopAction)
        ensures
            (final(self).spec_partitions_running(), final(self).spec_partitions()) == next_state::<
                PartitionObject,
            >(old(self).spec_partitions_running(), old(self).spec_partitions(), e),
            r == LoopAction::Stop <==> !final(self).spec_partitions_running(),
            final(self).spec_spus() == old(self).spec_spus(),
            final(self).spec_spus_running() == old(self).spec_spus_running(),
            final(self).spec_shut_down() == old(self).spec_shut_down(),
    {
        self.partitions.handle(e)
    }

    /// Hands one event of the storage-unit watch to its controller.
    pub fn handle_spu_event(&mut self, e: WatchEvent<crate::store::SpuMetadata>) -> (r: LoopAction)
        ensures
            (final(self).spec_spus_running(), final(self).spec_spus()) == next_state::<SpuObject>(
                old(self).spec_spus_running(),
                old(self).spec_spus(),
                e,
            ),
            r == LoopAction::Stop <==> !final(self).spec_spus_running(),
            final(self).spec_partitions() == old(self).spec_partitions(),
            final(self).spec_partitions_running() == old(self).spec_partitions_running(),
            final(self).spec_shut_down() == old(self).spec_shut_down(),
    {
        self.spus.handle(e)
    }

    /// Signals the controllers to stop. Calling it again changes nothing.
    pub fn shutdown(&mut self)
        ensures
            final(self).spec_shut_down(),
            final(self).spec_partitions() == old(self).spec_partitions(),
            final(self).spec_spus() == old(self).spec_spus(),
            final(self).spec_partitions_running() == old(self).spec_partitions_running(),
            final(self).spec_spus_running() == old(self).spec_spus_running(),
    {
        self.shutdown.notify();
    }
}

/// How to reach the leader of a partition.
#[derive(Debug)]
pub enum Route {
    /// A connection to this leader is open: reuse it.
    Reuse(i32),
    /// No connection to this leader yet: dial it at this endpoint.
    Connect { leader: i32, host: String, port: u16 },
}

/// Why a replica cannot be routed.
#[derive(Debug)]
pub enum FluvioError {
    /// No partition with this topic and index is known.
    PartitionNotFound(String, i32),
    /// The partition's leader is not a known storage unit.
    SpuNotFound(i32),
}

/// The outcome of routing, as values.
pub enum RouteView {
    Reuse(i32),
    Connect(i32, Seq<char>, u16),
    PartitionNotFound(Seq<char>, i32),
    SpuNotFound(i32),
}

/// What a routing result says.
pub open spec fn route_view(r: Result<Route, FluvioError>) -> RouteView {
    match r {
        Ok(Route::Reuse(l)) => RouteView::Reuse(l),
        Ok(Route::Connect { leader, host, port }) => RouteView::Connect(leader, host@, port),
        Err(FluvioError::PartitionNotFound(t, p)) => RouteView::PartitionNotFound(t@, p),
        Err(FluvioError::SpuNotFound(l)) => RouteView::SpuNotFound(l),
    }
}

/// How key `k` routes, given the cached partitions and units and the leaders
/// that have a connection.
pub open spec fn route_spec(
    partitions: Seq<PartitionView>,
    spus: Seq<SpuView>,
    connected: Set<i32>,
    k: (Seq<char>, i32),
) -> RouteView {
    match find_partition(partitions, k) {
        None => RouteView::PartitionNotFound(k.0, k.1),
        Some(p) => if connected.contains(p.leader) {
            RouteView::Reuse(p.leader)
        } else {
            match find_spu(spus, p.leader) {
                None => RouteView::SpuNotFound(p.leader),
                Some(u) => RouteView::Connect(p.leader, u.host, u.port),
            }
        },
    }
}

/// A pool of connections to partition leaders, one per leader, over the
/// metadata caches that say which unit leads which partition.
pub struct SpuPool<C> {
    metadata: MetadataStores,
    spu_clients: HashMap<i32, C>,
}

impl<C> SpuPool<C> {
    pub closed spec fn spec_metadata(&self) -> MetadataStores {
        self.metadata
    }

    pub closed spec fn spec_clients(&self) -> Map<i32, C> {
        self.spu_clients@
    }

    /// The leaders that have a connection.
    pub open spec fn spec_connected(&self) -> Set<i32> {
        self.spec_clients().dom()
    }

    /// How key `k` routes in this pool.
    pub open spec fn spec_route(&self, k: (Seq<char>, i32)) -> RouteView {
        route_spec(
            self.spec_metadata().spec_partitions(),
            self.spec_metadata().spec_spus(),
            self.spec_connected(),
            k,
        )
    }

    /// A pool over `metadata`, with no connection yet.
    pub fn start(metadata: MetadataStores) -> (r: SpuPool<C>)
        ensures
            r.spec_metadata() == metadata,
            r.spec_clients() == Map::<i32, C>::empty(),
    {
        SpuPool { metadata, spu_clients: HashMap::new() }
    }

    /// The metadata caches.
    pub fn metadata(&self) -> (r: &MetadataStores)
        ensures
            *r == self.spec_metadata(),
    {
        &self.metadata
    }

    /// Hands one event of the partition watch to its controller.
    pub fn handle_partition_event(&mut self, e: WatchEvent<crate::store::PartitionMetadata>) -> (r:
        LoopAction)
        ensures
            (final(self).spec_metadata().spec_partitions_running(),
            final(self).spec_metadata().spec_partitions()) == next_state::<PartitionObject>(
                old(self).spec_metadata().spec_partitions_running(),
                old(self).spec_metadata().spec_partitions(),
                e,
            ),
            r == LoopAction::Stop <==> !final(self).spec_metadata().spec_partitions_running(),
            final(self).spec_metadata().spec_spus() == old(self).spec_metadata().spec_spus(),
            final(self).spec_clients() == old(self).spec_clients(),
    {
        self.metadata.handle_partition_event(e)
    }

    /// Hands one event of the storage-unit watch to its controller.
    pub fn handle_spu_event(&mut self, e: WatchEvent<crate::store::SpuMetadata>) -> (r: LoopAction)
        ensures
            (final(self).spec_metadata().spec_spus_running(),
            final(self).spec_metadata().spec_spus()) == next_state::<SpuObject>(
                old(self).spec_metadata().spec_spus_running(),
                old(self).spec_metadata().spec_spus(),
                e,
            ),
            r == LoopAction::Stop <==> !final(self).spec_metadata().spec_spus_running(),
            final(self).spec_metadata().spec_partitions() == old(
                self,
            ).spec_metadata().spec_partitions(),
            final(self).spec_clients() == old(self).spec_clients(),
    {
        self.metadata.handle_spu_event(e)
    }

    /// Resolves `replica` to its leader, and says whether a connection to
    /// that leader is open or where to dial it.
    pub fn resolve(&self, replica: &ReplicaKey) -> (r: Result<Route, FluvioError>)
        ensures
            route_view(r) == self.spec_route(replica@),
    {
        let partition = match self.metadata.partitions().lookup_by_key(replica) {
            Some(p) => p,
            None => {
                return Err(FluvioError::PartitionNotFound(replica.topic.clone(), replica.partition));
            },
        };
        let leader_id = partition.leader;
        if self.spu_clients.contains_key(&leader_id) {
            return Ok(Route::Reuse(leader_id));
        }
        match self.metadata.spus().look_up_by_id(leader_id) {
            Some(spu) => Ok(Route::Connect { leader: leader_id, host: spu.host.clone(), port: spu.port }),
            None => Err(FluvioError::SpuNotFound(leader_id)),
        }
    }

    /// The open connection to `leader`, if there is one.
    pub fn connection(&self, leader: i32) -> (r: Option<&C>)
        ensures
            match r {
                Some(c) => self.spec_clients().contains_key(leader) && *c == self.spec_clients()[leader],
                None => !self.spec_clients().contains_key(leader),
            },
    {
        self.spu_clients.get(&leader)
    }

    /// Registers the connection dialed to `leader`.
    pub fn register(&mut self, leader: i32, conn: C)
        ensures
            final(self).spec_clients() == old(self).spec_clients().insert(leader, conn),
            final(self).spec_metadata() == old(self).spec_metadata(),
    {
        self.spu_clients.insert(leader, conn);
    }

    /// Signals the metadata controllers to stop. Calling it again changes nothing.
    pub fn shutdown(&mut self)
        ensures
            final(self).spec_metadata().spec_shut_down(),
            final(self).spec_metadata().spec_partitions() == old(self).spec_metadata().spec_partitions(),
            final(self).spec_metadata().spec_spus() == old(self).spec_metadata().spec_spus(),
            final(self).spec_clients() == old(self).spec_clients(),
    {
        self.metadata.shutdown();
    }
}

/// Two keys led by the same unit cost one dial between them: once the first
/// key's dial is registered, both keys reuse that connection.
pub proof fn lemma_connection_reuse(
    partitions: Seq<PartitionView>,
    spus: Seq<SpuView>,
    connected: Set<i32>,
    a: (Seq<char>, i32),
    b: (Seq<char>, i32),
    leader: i32,
)
    requires
        find_partition(partitions, a) matches Some(pa) && pa.leader == leader,
        find_partition(partitions, b) matches Some(pb) && pb.leader == leader,
    ensures
        route_spec(partitions, spus, connected, a) is Connect ==> route_spec(
            partitions,
            spus,
            connected,
            b,
        ) is Connect,
        route_spec(partitions, spus, connected.insert(leader), a) == RouteView::Reuse(leader),
        route_spec(partitions, spus, connected.insert(leader), b) == RouteView::Reuse(leader),
{
}

/// A key that no cached partition has routes to "partition not found" with
/// that very topic and index, never to a dial.
pub proof fn lemma_unknown_partition(
    partitions: Seq<PartitionView>,
    spus: Seq<SpuView>,
    connected: Set<i32>,
    k: (Seq<char>, i32),
)
    requires
        find_partition(partitions, k).is_none(),
    ensures
        route_spec(partitions, spus, connected, k) == RouteView::PartitionNotFound(k.0, k.1),
{
}

} // verus!
