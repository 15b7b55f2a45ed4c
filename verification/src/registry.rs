//! The orchestrator's node registry: a concurrent store mapping node identity
//! to the most recently received metric, upserted by one handler instance per
//! in-flight heartbeat. The store is a `dashmap::DashMap`, which serializes
//! concurrent writes to the same key behind its shard lock while letting
//! writes to different keys proceed without one global lock; its operations
//! stand behind trusted wrappers, and the logic above them is verified
//! against the map model they state.

use vstd::prelude::*;

use std::sync::Arc;

verus! {

#[verifier::external_type_specification]
#[verifier::external_body]
#[verifier::reject_recursive_types(K)]
#[verifier::reject_recursive_types(V)]
#[verifier::reject_recursive_types(S)]
pub struct ExDashMap<K, V, S>(dashmap::DashMap<K, V, S>);

/// The entries a `DashMap<String, u32>` holds, as a map from the key's
/// characters to the stored metric bits.
pub uninterp spec fn dash_entries(m: dashmap::DashMap<String, u32>) -> Map<Seq<char>, u32>;

/// The registry contents at orchestrator startup: no node has reported yet.
pub open spec fn no_entries() -> Map<Seq<char>, u32> {
    Map::<Seq<char>, u32>::empty()
}

/// The acknowledgment a heartbeat is answered with.
pub struct HeartbeatReply {
    /// Always true: the handler has no failure path of its own; storage is
    /// in-memory and never fails.
    pub acknowledged: bool,
}

/// The orchestrator's registry of node identity -> latest reported metric
/// (an `f32` carried as its bit pattern). Entries are added on the first
/// heartbeat from a new node id, overwritten on every later one, and never
/// deleted.
///
/// A `Registry` value is a handle: [`Registry::handle`] yields another handle
/// onto the same underlying store, so one handler instance per in-flight
/// heartbeat can write concurrently. The store being shared, Verus's value
/// semantics cannot model it whole: each write contract states the effect of
/// that one call on the store (the view is the store's entries, keyed by the
/// node id's characters), so a handle's view folds up exactly the writes
/// made through that handle, and nothing verified relates one handle to
/// another or ties a read to any handle's history. Reads therefore carry no
/// contract. What concurrent writers interleave is the store's own concern:
/// it serializes writes to the same key behind its shard lock
/// (last-write-wins) and keeps writes to different keys apart. What the
/// last-write-wins discipline yields for any write sequence is stated and
/// proved over pure maps below ([`lemma_last_write_wins`],
/// [`lemma_distinct_nodes_independent`]).
pub struct Registry {
    shared: Arc<dashmap::DashMap<String, u32>>,
}

impl View for Registry {
    type V = Map<Seq<char>, u32>;

    closed spec fn view(&self) -> Map<Seq<char>, u32> {
        dash_entries(*self.shared)
    }
}

impl Registry {
    /// Relies on dashmap::DashMap::new: creates a map with no entries.
    #[verifier::external_body]
    fn raw_new() -> (r: Registry)
        ensures
            dash_entries(*r.shared) == no_entries(),
    {
        Registry { shared: Arc::new(dashmap::DashMap::new()) }
    }

    /// Relies on Arc::clone: the new handle refers to the same underlying
    /// store. Nothing is stated of the new handle's entries, deliberately:
    /// the store is shared and mutable through every handle, so no handle's
    /// view could truthfully stand for an independent snapshot.
    #[verifier::external_body]
    fn raw_handle(&self) -> (r: Registry) {
        Registry { shared: Arc::clone(&self.shared) }
    }

    /// Relies on dashmap::DashMap::insert: inserts the key with the value,
    /// fully replacing any prior value for that key and leaving every other
    /// key untouched. The clause relates the store before and after this one
    /// call; what other handles do to the shared store between calls is not
    /// modeled.
    #[verifier::external_body]
    fn raw_upsert(&mut self, node_id: String, gpu_temp_bits: u32)
        ensures
            dash_entries(*final(self).shared) == dash_entries(*old(self).shared).insert(
                node_id@,
                gpu_temp_bits,
            ),
    {
        self.shared.insert(node_id, gpu_temp_bits);
    }

    /// Relies on dashmap::DashMap::get: yields the value the store holds
    /// for the key at this moment, or nothing. The read carries no
    /// contract, deliberately: the store is shared, so its current answer
    /// may include writes made through other handles and cannot be derived
    /// from this handle's own history.
    #[verifier::external_body]
    fn raw_get(&self, node_id: &String) -> Option<u32> {
        self.shared.get(node_id).map(|entry| *entry.value())
    }

    /// A registry with no entries, as created once at orchestrator startup.
    pub fn new() -> (r: Registry)
        ensures
            r@ == Map::<Seq<char>, u32>::empty(),
    {
        Registry::raw_new()
    }

    /// Another handle onto the same underlying store; the driver hands one
    /// to each handler instance, which only writes through it. The new
    /// handle carries no contract: the sharing is mutation through an
    /// alias, which the value model cannot state truthfully, so it is
    /// pinned by a test on the running store instead, not by a clause
    /// Verus would believe.
    pub fn handle(&self) -> Registry {
        self.raw_handle()
    }

    /// The metric bits the store holds for this node id at this moment, or
    /// nothing if the node has never been heard from. An observer for the
    /// driver and the tests; like the underlying read, it carries no
    /// contract, since the shared store's current answer cannot be tied to
    /// any one handle's view.
    pub fn get_temp_bits(&self, node_id: &String) -> Option<u32> {
        self.raw_get(node_id)
    }

    /// The heartbeat service's one operation: record the node's metric,
    /// unconditionally overwriting any prior entry for that node id
    /// (last-write-wins), and acknowledge. No input is rejected: the node id
    /// is an opaque key and the metric is stored as-is, with no range
    /// enforcement.
    pub fn heartbeat(&mut self, node_id: String, gpu_temp_bits: u32) -> (r: HeartbeatReply)
        ensures
            final(self)@ == old(self)@.insert(node_id@, gpu_temp_bits),
            r.acknowledged,
    {
        self.raw_upsert(node_id, gpu_temp_bits);
        HeartbeatReply { acknowledged: true }
    }
}

/// The registry contents after a sequence of heartbeats `(node_id, metric
/// bits)` is applied to `m`, in order.
pub open spec fn apply_heartbeats(
    m: Map<Seq<char>, u32>,
    hbs: Seq<(Seq<char>, u32)>,
) -> Map<Seq<char>, u32>
    decreases hbs.len(),
{
    if hbs.len() == 0 {
        m
    } else {
        apply_heartbeats(m, hbs.drop_last()).insert(hbs.last().0, hbs.last().1)
    }
}

/// Law (last-write-wins): after a sequence of heartbeats is applied, the
/// entry for a node id equals the metric of the last heartbeat that carried
/// that id, no matter how heartbeats for other node ids are interleaved
/// around it.
pub proof fn lemma_last_write_wins(
    m: Map<Seq<char>, u32>,
    hbs: Seq<(Seq<char>, u32)>,
    i: int,
)
    requires
        0 <= i < hbs.len(),
        forall|j: int| i < j < hbs.len() ==> (#[trigger] hbs[j]).0 != hbs[i].0,
    ensures
        apply_heartbeats(m, hbs).contains_key(hbs[i].0),
        apply_heartbeats(m, hbs)[hbs[i].0] == hbs[i].1,
    decreases hbs.len(),
{
    if i == hbs.len() - 1 {
        // the last applied heartbeat is the one for this id: its insert wins
    } else {
        lemma_last_write_wins(m, hbs.drop_last(), i);
        // the final insert is for a different id and leaves this entry alone
        assert(hbs.drop_last()[i] == hbs[i]);
    }
}

/// Law (independent node ids): heartbeats for two distinct node ids never
/// disturb each other: applied in either order, the registry afterwards
/// holds both latest values, and the two orders yield the same registry.
pub proof fn lemma_distinct_nodes_independent(
    m: Map<Seq<char>, u32>,
    a: Seq<char>,
    x: u32,
    b: Seq<char>,
    y: u32,
)
    requires
        a != b,
    ensures
        m.insert(a, x).insert(b, y)[a] == x,
        m.insert(a, x).insert(b, y)[b] == y,
        m.insert(b, y).insert(a, x)[a] == x,
        m.insert(b, y).insert(a, x)[b] == y,
        m.insert(a, x).insert(b, y) == m.insert(b, y).insert(a, x),
{
    assert(m.insert(a, x).insert(b, y) =~= m.insert(b, y).insert(a, x));
}

} // verus!
