use vstd::prelude::*;
use crate::text::{partition_name_key, parse_partition_name, same_text};

verus! {

/// Identifies one partition: a topic and the partition's index in it.
pub struct ReplicaKey {
    pub topic: String,
    pub partition: i32,
}

impl View for ReplicaKey {
    type V = (Seq<char>, i32);

    open spec fn view(&self) -> (Seq<char>, i32) {
        (self.topic@, self.partition)
    }
}

impl ReplicaKey {
    pub fn new(topic: String, partition: i32) -> (r: ReplicaKey)
        ensures
            r@ == (topic@, partition),
    {
        ReplicaKey { topic, partition }
    }
}

/// A metadata kind that the store caches: its objects, the wire form that the
/// controller pushes, and how one becomes the other.
pub trait MetadataSpec: Sized + View {
    /// How the controller sends one object.
    type Wire: View;

    /// The object that a wire item stands for, if it stands for one.
    spec fn convert_spec(w: <Self::Wire as View>::V) -> Option<<Self as View>::V>;

    /// Turns a wire item into an object of the store.
    fn convert(w: &Self::Wire) -> (r: Option<Self>)
        ensures
            match r {
                Some(o) => Self::convert_spec(w@) == Some(o@),
                None => Self::convert_spec(w@).is_none(),
            },
    ;
}

/// What the store knows of a partition.
pub struct PartitionView {
    pub key: (Seq<char>, i32),
    pub leader: i32,
    pub replicas: Seq<i32>,
}

/// A partition as cached: its key, its current leader and its replica set.
pub struct PartitionObject {
    pub key: ReplicaKey,
    pub leader: i32,
    pub replicas: Vec<i32>,
}

impl View for PartitionObject {
    type V = PartitionView;

    open spec fn view(&self) -> PartitionView {
        PartitionView { key: self.key@, leader: self.leader, replicas: self.replicas@ }
    }
}

/// A partition as the controller sends it, named `<topic>-<index>`.
pub struct PartitionMetadata {
    pub name: String,
    pub leader: i32,
    pub replicas: Vec<i32>,
}

impl View for PartitionMetadata {
    type V = (Seq<char>, i32, Seq<i32>);

    open spec fn view(&self) -> (Seq<char>, i32, Seq<i32>) {
        (self.name@, self.leader, self.replicas@)
    }
}

impl MetadataSpec for PartitionObject {
    type Wire = PartitionMetadata;

    /// Defined when the name parses as a partition key.
    open spec fn convert_spec(w: (Seq<char>, i32, Seq<i32>)) -> Option<PartitionView> {
        match partition_name_key(w.0) {
            Some(k) => Some(PartitionView { key: k, leader: w.1, replicas: w.2 }),
            None => None,
        }
    }

    fn convert(w: &PartitionMetadata) -> (r: Option<PartitionObject>) {
        match parse_partition_name(w.name.as_str()) {
            Some((topic, partition)) => Some(
                PartitionObject {
                    key: ReplicaKey { topic, partition },
                    leader: w.leader,
                    replicas: w.replicas.clone(),
                },
            ),
            None => None,
        }
    }
}

/// What the store knows of a storage unit.
pub struct SpuView {
    pub id: i32,
    pub name: Seq<char>,
    pub host: Seq<char>,
    pub port: u16,
}

/// A storage unit: its id, its name and its public endpoint.
pub struct SpuObject {
    pub id: i32,
    pub name: String,
    pub host: String,
    pub port: u16,
}

impl View for SpuObject {
    type V = SpuView;

    open spec fn view(&self) -> SpuView {
        SpuView { id: self.id, name: self.name@, host: self.host@, port: self.port }
    }
}

/// A storage unit as the controller sends it.
pub struct SpuMetadata {
    pub name: String,
    pub id: i32,
    pub host: String,
    pub port: u16,
}

impl View for SpuMetadata {
    type V = SpuView;

    open spec fn view(&self) -> SpuView {
        SpuView { id: self.id, name: self.name@, host: self.host@, port: self.port }
    }
}

impl MetadataSpec for SpuObject {
    type Wire = SpuMetadata;

    /// Every unit the controller sends is cached as it is.
    open spec fn convert_spec(w: SpuView) -> Option<SpuView> {
        Some(w)
    }

    fn convert(w: &SpuMetadata) -> (r: Option<SpuObject>) {
        Some(SpuObject { id: w.id, name: w.name.clone(), host: w.host.clone(), port: w.port })
    }
}

/// The views of a sequence of objects.
pub open spec fn views<T: View>(s: Seq<T>) -> Seq<T::V> {
    s.map_values(|t: T| t@)
}

/// The cached objects of one metadata kind, in the order the last full
/// snapshot gave them.
pub struct MetadataStore<T> {
    items: Vec<T>,
}

impl<T: View> View for MetadataStore<T> {
    type V = Seq<T::V>;

    closed spec fn view(&self) -> Seq<T::V> {
        views(self.items@)
    }
}

impl<T: View> MetadataStore<T> {
    /// An empty store.
    pub fn new() -> (r: MetadataStore<T>)
        ensures
            r@ == Seq::<T::V>::empty(),
    {
        let r = MetadataStore { items: Vec::new() };
        assert(r@ =~= Seq::<T::V>::empty());
        r
    }

    /// The number of cached objects.
    pub fn len(&self) -> (r: usize)
        ensures
            r == self@.len(),
    {
        self.items.len()
    }

    /// Replaces the whole contents with `objects`.
    pub fn sync_all(&mut self, objects: Vec<T>)
        ensures
            final(self)@ == views(objects@),
    {
        self.items = objects;
    }
}

/// The first position at or after `i` of a partition keyed `k`.
pub open spec fn find_partition_from(s: Seq<PartitionView>, k: (Seq<char>, i32), i: int) -> Option<int>
    decreases s.len() - i,
{
    if i < 0 || i >= s.len() {
        None
    } else if s[i].key == k {
        Some(i)
    } else {
        find_partition_from(s, k, i + 1)
    }
}

/// The partition keyed `k`, the first one where several share the key.
pub open spec fn find_partition(s: Seq<PartitionView>, k: (Seq<char>, i32)) -> Option<PartitionView> {
    match find_partition_from(s, k, 0) {
        Some(i) => Some(s[i]),
        None => None,
    }
}

/// The first position at or after `i` of a unit with id `id`.
pub open spec fn find_spu_from(s: Seq<SpuView>, id: i32, i: int) -> Option<int>
    decreases s.len() - i,
{
    if i < 0 || i >= s.len() {
        None
    } else if s[i].id == id {
        Some(i)
    } else {
        find_spu_from(s, id, i + 1)
    }
}

/// The unit with id `id`, the first one where several share it.
pub open spec fn find_spu(s: Seq<SpuView>, id: i32) -> Option<SpuView> {
    match find_spu_from(s, id, 0) {
        Some(i) => Some(s[i]),
        None => None,
    }
}

impl MetadataStore<PartitionObject> {
    /// The cached partition keyed `key`.
    pub fn lookup_by_key(&self, key: &ReplicaKey) -> (r: Option<&PartitionObject>)
        ensures
            match r {
                Some(p) => find_partition(self@, key@) == Some(p@),
                None => find_partition(self@, key@).is_none(),
            },
    {
        let ghost s = self@;
        let mut i: usize = 0;
        while i < self.items.len()
            invariant
                s == self@,
                s == views(self.items@),
                i <= s.len(),
                find_partition_from(s, key@, 0) == find_partition_from(s, key@, i as int),
            decreases self.items.len() - i,
        {
            let p = &self.items[i];
            assert(s[i as int] == p@);
            if p.key.partition == key.partition && same_text(p.key.topic.as_str(), key.topic.as_str()) {
                return Some(p);
            }
            i = i + 1;
        }
        None
    }
}

impl MetadataStore<SpuObject> {
    /// The cached unit with id `id`.
    pub fn look_up_by_id(&self, id: i32) -> (r: Option<&SpuObject>)
        ensures
            match r {
                Some(u) => find_spu(self@, id) == Some(u@),
                None => find_spu(self@, id).is_none(),
            },
    {
        let ghost s = self@;
        let mut i: usize = 0;
        while i < self.items.len()
            invariant
                s == self@,
                s == views(self.items@),
                i <= s.len(),
                find_spu_from(s, id, 0) == find_spu_from(s, id, i as int),
            decreases self.items.len() - i,
        {
            let u = &self.items[i];
            assert(s[i as int] == u@);
            if u.id == id {
                return Some(u);
            }
            i = i + 1;
        }
        None
    }
}

} // verus!
