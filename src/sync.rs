use vstd::prelude::*;
use crate::store::{MetadataSpec, MetadataStore, views};

verus! {

/// One change of an incremental update.
pub enum MetadataChange<W> {
    Update(W),
    Delete(W),
}

/// One watch message, decoded: a full snapshot of one metadata kind, and an
/// incremental change list.
///
/// An empty `all` means no full resync in this message. Changes are carried
/// but not applied: the store takes full snapshots only.
pub struct MetadataUpdate<W> {
    pub all: Vec<W>,
    pub changes: Vec<MetadataChange<W>>,
}

/// Why an update could not be applied.
#[derive(Debug, Clone, Copy, PartialEq, Eq, Structural)]
pub enum SyncError {
    /// An item of the full snapshot does not convert into a store object.
    InvalidData,
}

/// Whether every item of a snapshot converts.
pub open spec fn all_convert<T: MetadataSpec>(all: Seq<<T::Wire as View>::V>) -> bool {
    forall|i: int| 0 <= i < all.len() ==> (#[trigger] T::convert_spec(all[i])).is_some()
}

/// The objects that a snapshot converts to, where every item converts.
pub open spec fn converted<T: MetadataSpec>(all: Seq<<T::Wire as View>::V>) -> Seq<<T as View>::V> {
    all.map_values(|w: <T::Wire as View>::V| T::convert_spec(w).unwrap())
}

/// The store's contents after a snapshot `all` is applied to contents `s`:
/// replaced where the snapshot is non-empty and every item converts,
/// unchanged otherwise.
pub open spec fn applied<T: MetadataSpec>(
    s: Seq<<T as View>::V>,
    all: Seq<<T::Wire as View>::V>,
) -> Seq<<T as View>::V> {
    if all.len() > 0 && all_convert::<T>(all) {
        converted::<T>(all)
    } else {
        s
    }
}

/// Applies the full snapshot of `update` to `store`, all or nothing.
pub fn process_updates<T: MetadataSpec>(store: &mut MetadataStore<T>, update: MetadataUpdate<T::Wire>) -> (r:
    Result<(), SyncError>)
    ensures
        final(store)@ == applied::<T>(old(store)@, views(update.all@)),
        r is Err <==> !all_convert::<T>(views(update.all@)),
{
    let ghost ws = views(update.all@);
    let all = &update.all;
    if all.len() == 0 {
        return Ok(());
    }
    let mut objects: Vec<T> = Vec::new();
    let mut i: usize = 0;
    while i < all.len()
        invariant
            ws == views(all@),
            ws == views(update.all@),
            i <= all.len(),
            objects@.len() == i,
            forall|j: int| 0 <= j < i ==> (#[trigger] T::convert_spec(ws[j])) == Some(objects@[j]@),
            *store == *old(store),
        decreases all.len() - i,
    {
        match T::convert(&all[i]) {
            Some(obj) => {
                objects.push(obj);
            },
            None => {
                assert(T::convert_spec(ws[i as int]).is_none());
                return Err(SyncError::InvalidData);
            },
        }
        i = i + 1;
    }
    assert(views(objects@) =~= converted::<T>(ws)) by {
        assert forall|j: int| 0 <= j < ws.len() implies views(objects@)[j] == converted::<T>(ws)[j] by {
            assert(T::convert_spec(ws[j]) == Some(objects@[j]@));
        }
    }
    store.sync_all(objects);
    Ok(())
}

/// Applying the same non-empty snapshot twice leaves the store as applying
/// it once does.
pub proof fn lemma_snapshot_idempotent<T: MetadataSpec>(
    s: Seq<<T as View>::V>,
    all: Seq<<T::Wire as View>::V>,
)
    requires
        all.len() > 0,
    ensures
        applied::<T>(applied::<T>(s, all), all) == applied::<T>(s, all),
{
}

/// A snapshot with an item that does not convert leaves the store as it was:
/// no item of it is applied.
pub proof fn lemma_snapshot_atomic<T: MetadataSpec>(
    s: Seq<<T as View>::V>,
    all: Seq<<T::Wire as View>::V>,
    bad: int,
)
    requires
        0 <= bad < all.len(),
        T::convert_spec(all[bad]).is_none(),
    ensures
        applied::<T>(s, all) == s,
{
}

/// What arrived for the dispatch loop, from the watch stream or the
/// shutdown signal.
pub enum WatchEvent<W> {
    /// A watch message, decoded.
    Update(MetadataUpdate<W>),
    /// A watch message that did not decode.
    DecodeFailed,
    /// The watch stream reported a transport error.
    StreamFailed,
    /// The watch stream ended.
    StreamEnded,
    /// The shutdown signal is set.
    Shutdown,
}

/// What the dispatch loop does after an event.
#[derive(Debug, Clone, Copy, PartialEq, Eq, Structural)]
pub enum LoopAction {
    /// Wait for the next event.
    Continue,
    /// The update was rejected, the store left as it was; wait for the next event.
    Rejected(SyncError),
    /// The loop is over.
    Stop,
}

/// The controller's state after `e`, from `running` and store contents `s`.
///
/// A terminated controller stays terminated. A decode failure or a rejected
/// update is not fatal; a stream error, the stream's end or shutdown is.
pub open spec fn next_state<T: MetadataSpec>(
    running: bool,
    s: Seq<<T as View>::V>,
    e: WatchEvent<T::Wire>,
) -> (bool, Seq<<T as View>::V>) {
    if !running {
        (false, s)
    } else {
        match e {
            WatchEvent::Update(u) => (true, applied::<T>(s, views(u.all@))),
            WatchEvent::DecodeFailed => (true, s),
            _ => (false, s),
        }
    }
}

/// Whether `e` is an update whose full snapshot has an item that does not convert.
pub open spec fn rejects<T: MetadataSpec>(e: WatchEvent<T::Wire>) -> bool {
    match e {
        WatchEvent::Update(u) => !all_convert::<T>(views(u.all@)),
        _ => false,
    }
}

/// Keeps one metadata kind of the store in step with the controller's watch
/// stream. Whoever owns the stream hands each event to `handle`.
pub struct MetadataSyncController<T> {
    store: MetadataStore<T>,
    running: bool,
}

impl<T: MetadataSpec> MetadataSyncController<T> {
    pub closed spec fn spec_running(&self) -> bool {
        self.running
    }

    pub closed spec fn spec_store(&self) -> Seq<<T as View>::V> {
        self.store@
    }

    /// A running controller over `store`.
    pub fn start(store: MetadataStore<T>) -> (r: MetadataSyncController<T>)
        ensures
            r.spec_running(),
            r.spec_store() == store@,
    {
        MetadataSyncController { store, running: true }
    }

    /// Whether the loop still runs.
    pub fn is_running(&self) -> (r: bool)
        ensures
            r == self.spec_running(),
    {
        self.running
    }

    /// The store this controller writes.
    pub fn store(&self) -> (r: &MetadataStore<T>)
        ensures
            r@ == self.spec_store(),
    {
        &self.store
    }

    /// Takes one event of the dispatch loop.
    pub fn handle(&mut self, e: WatchEvent<T::Wire>) -> (r: LoopAction)
        ensures
            (final(self).spec_running(), final(self).spec_store()) == next_state::<T>(
                old(self).spec_running(),
                old(self).spec_store(),
                e,
            ),
            r == LoopAction::Stop <==> !final(self).spec_running(),
            r == LoopAction::Rejected(SyncError::InvalidData) <==> (old(self).spec_running()
                && rejects::<T>(e)),
    {
        if !self.running {
            return LoopAction::Stop;
        }
        match e {
            WatchEvent::Update(u) => {
                match process_updates(&mut self.store, u) {
                    Ok(()) => LoopAction::Continue,
                    Err(err) => LoopAction::Rejected(err),
                }
            },
            WatchEvent::DecodeFailed => LoopAction::Continue,
            _ => {
                self.running = false;
                LoopAction::Stop
            },
        }
    }
}

/// A message that does not decode does not end the loop, and a well-formed
/// full snapshot after it is still applied.
pub proof fn lemma_loop_survives_bad_input<T: MetadataSpec>(
    s: Seq<<T as View>::V>,
    u: MetadataUpdate<T::Wire>,
)
    requires
        u.all@.len() > 0,
        all_convert::<T>(views(u.all@)),
    ensures
        next_state::<T>(true, s, WatchEvent::DecodeFailed) == (true, s),
        next_state::<T>(true, s, WatchEvent::Update(u)) == (true, converted::<T>(views(u.all@))),
{
}

} // verus!
