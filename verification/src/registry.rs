//! The supervision registry: per-actor bookkeeping of who supervises whom.
//!
//! The two collections are held in `dashmap::DashMap`, the sharded
//! concurrent hash map the runtime uses for supervision state, behind the
//! trusted boundary at the top of this file. Everything the registry states
//! about itself is said over `children_map`/`parents_map`, the mathematical
//! contents of those collections.

use vstd::prelude::*;
use dashmap::DashMap;
use crate::ActorId;
use crate::event::SupervisionEvent;
use crate::handle::ActorHandle;

verus! {

broadcast use vstd::set::group_set_axioms, vstd::map::group_map_axioms;

/// dashmap's sharded concurrent hash map, declared so that it can stand in
/// fields of the library.
#[verifier::external_type_specification]
#[verifier::external_body]
#[verifier::reject_recursive_types(K)]
#[verifier::reject_recursive_types(V)]
#[verifier::reject_recursive_types(S)]
pub struct ExDashMap<K, V, S>(DashMap<K, V, S>);

/// A handle collection: dashmap's concurrent map, keyed by raw identity.
pub type HandleMap = DashMap<u64, ActorHandle>;

/// A snapshot of a handle collection's entries.
pub type HandleSnapshot = Vec<(u64, ActorHandle)>;

/// The contents of a handle collection: which handle is registered under
/// which raw identity.
pub uninterp spec fn handle_map_model(m: HandleMap) -> Map<u64, ActorHandle>;

/// The contents of a handle collection with nothing registered.
pub open spec fn empty_handle_map() -> Map<u64, ActorHandle> {
    Map::empty()
}

/// Relies on dashmap::DashMap::new: creates an empty map.
#[verifier::external_body]
fn handle_map_new() -> (created: HandleMap)
    ensures
        handle_map_model(created) == empty_handle_map(),
{
    DashMap::new()
}

/// Relies on dashmap::DashMap::insert: maps `key` to `value` and returns
/// the value previously registered under `key`, if any.
#[verifier::external_body]
fn handle_map_insert(m: &mut HandleMap, key: u64, value: ActorHandle) -> (r: Option<ActorHandle>)
    ensures
        handle_map_model(*final(m)) == handle_map_model(*old(m)).insert(key, value),
        handle_map_model(*old(m)).dom().contains(key) ==> r == Some(
            handle_map_model(*old(m))[key],
        ),
        !handle_map_model(*old(m)).dom().contains(key) ==> r is None,
{
    m.insert(key, value)
}

/// Relies on dashmap::DashMap::remove: unmaps `key` and returns the value
/// that was registered under it, if any.
#[verifier::external_body]
fn handle_map_remove(m: &mut HandleMap, key: u64) -> (r: Option<ActorHandle>)
    ensures
        handle_map_model(*final(m)) == handle_map_model(*old(m)).remove(key),
        handle_map_model(*old(m)).dom().contains(key) ==> r == Some(
            handle_map_model(*old(m))[key],
        ),
        !handle_map_model(*old(m)).dom().contains(key) ==> r is None,
{
    match m.remove(&key) {
        Some(kv) => Some(kv.1),
        None => None,
    }
}

/// Relies on dashmap::DashMap::contains_key: membership test.
#[verifier::external_body]
fn handle_map_contains(m: &HandleMap, key: u64) -> (r: bool)
    ensures
        r == handle_map_model(*m).dom().contains(key),
{
    m.contains_key(&key)
}

/// Relies on dashmap::DashMap::len: the number of entries.
#[verifier::external_body]
fn handle_map_len(m: &HandleMap) -> (r: usize)
    ensures
        r == handle_map_model(*m).dom().len(),
{
    m.len()
}

/// Relies on dashmap::DashMap::iter: visits each entry exactly once while
/// the map is borrowed, so the result is a snapshot of the contents at call
/// time. Each handle in the result is a clone of the stored one, and a
/// clone refers to the same actor; the contract states of it only what a
/// clone preserves (identity and expected state type).
#[verifier::external_body]
fn handle_map_entries(m: &HandleMap) -> (r: HandleSnapshot)
    ensures
        r@.len() == handle_map_model(*m).dom().len(),
        forall|i: int|
            0 <= i < r@.len() ==> {
                &&& handle_map_model(*m).dom().contains((#[trigger] r@[i]).0)
                &&& r@[i].1.id == handle_map_model(*m)[r@[i].0].id
                &&& r@[i].1.state_tag == handle_map_model(*m)[r@[i].0].state_tag
            },
        forall|i: int, j: int| 0 <= i < j < r@.len() ==> r@[i].0 != r@[j].0,
{
    let mut out = Vec::new();
    for kv in m.iter() {
        out.push((*kv.key(), kv.value().clone()));
    }
    out
}

/// One entry of a notification fan-out's report: a registered parent and
/// whether a delivery attempt was made to it.
#[derive(Clone, Copy, PartialEq, Eq, Structural, Debug)]
pub struct DeliveryAttempt {
    /// The parent the fan-out considered.
    pub parent: ActorId,
    /// Whether a delivery was attempted: exactly when the parent's
    /// expected state type matches the event's.
    pub attempted: bool,
}

/// Per-actor supervision state: the actors this one supervises
/// (`children_map`) and the actors supervising this one (`parents_map`).
///
/// An identity appears at most once in each collection, and each handle is
/// registered under its own identity.
///
/// Mutation goes through `&mut self`, so a caller that shares one registry
/// across tasks brings its own synchronization around the mutating calls;
/// the sharded concurrent map underneath still serializes its own shard
/// access, and the read-only operations take `&self`.
pub struct SupervisionTree {
    children: HandleMap,
    parents: HandleMap,
}

impl SupervisionTree {
    /// The registered children, keyed by raw identity.
    pub closed spec fn children_map(self) -> Map<u64, ActorHandle> {
        handle_map_model(self.children)
    }

    /// The registered parents, keyed by raw identity.
    pub closed spec fn parents_map(self) -> Map<u64, ActorHandle> {
        handle_map_model(self.parents)
    }

    /// Well-formedness: both collections are finite and every handle is
    /// registered under its own identity.
    pub open spec fn wf(self) -> bool {
        &&& self.children_map().dom().finite()
        &&& self.parents_map().dom().finite()
        &&& forall|k: u64|
            self.children_map().dom().contains(k) ==> (#[trigger] self.children_map()[k]).id.0
                == k
        &&& forall|k: u64|
            self.parents_map().dom().contains(k) ==> (#[trigger] self.parents_map()[k]).id.0 == k
    }

    /// An empty registry: no children, no parents.
    pub fn new() -> (r: SupervisionTree)
        ensures
            r.wf(),
            r.children_map() == empty_handle_map(),
            r.parents_map() == empty_handle_map(),
    {
        let r = SupervisionTree { children: handle_map_new(), parents: handle_map_new() };
        proof {
            assert(r.children_map().dom() =~= Set::<u64>::empty());
            assert(r.parents_map().dom() =~= Set::<u64>::empty());
        }
        r
    }

    /// Register `child` under its identity; re-registering the same
    /// identity overwrites the prior handle.
    pub fn insert_child(&mut self, child: ActorHandle)
        requires
            old(self).wf(),
        ensures
            final(self).wf(),
            final(self).children_map() == old(self).children_map().insert(child.id.0, child),
            final(self).parents_map() == old(self).parents_map(),
    {
        let key = child.identity().raw();
        let _ = handle_map_insert(&mut self.children, key, child);
    }

    /// Unregister the identity of `child`; a no-op if it is absent.
    pub fn remove_child(&mut self, child: ActorHandle)
        requires
            old(self).wf(),
        ensures
            final(self).wf(),
            final(self).children_map() == old(self).children_map().remove(child.id.0),
            final(self).parents_map() == old(self).parents_map(),
            !old(self).children_map().dom().contains(child.id.0) ==> final(self).children_map()
                == old(self).children_map(),
    {
        let key = child.identity().raw();
        let _ = handle_map_remove(&mut self.children, key);
        proof {
            if !old(self).children_map().dom().contains(child.id.0) {
                assert(final(self).children_map() =~= old(self).children_map());
            }
        }
    }

    /// Register `parent` under its identity; re-registering the same
    /// identity overwrites the prior handle.
    pub fn insert_parent(&mut self, parent: ActorHandle)
        requires
            old(self).wf(),
        ensures
            final(self).wf(),
            final(self).parents_map() == old(self).parents_map().insert(parent.id.0, parent),
            final(self).children_map() == old(self).children_map(),
    {
        let key = parent.identity().raw();
        let _ = handle_map_insert(&mut self.parents, key, parent);
    }

    /// Unregister the identity of `parent`; a no-op if it is absent.
    pub fn remove_parent(&mut self, parent: ActorHandle)
        requires
            old(self).wf(),
        ensures
            final(self).wf(),
            final(self).parents_map() == old(self).parents_map().remove(parent.id.0),
            final(self).children_map() == old(self).children_map(),
            !old(self).parents_map().dom().contains(parent.id.0) ==> final(self).parents_map()
                == old(self).parents_map(),
    {
        let key = parent.identity().raw();
        let _ = handle_map_remove(&mut self.parents, key);
        proof {
            if !old(self).parents_map().dom().contains(parent.id.0) {
                assert(final(self).parents_map() =~= old(self).parents_map());
            }
        }
    }

    /// Issue one termination request to every child registered at call
    /// time, in unspecified order. Requests are fire-and-forget: a child
    /// that is already gone ignores its request.
    ///
    /// Returns the identity of each child a request was issued to, one
    /// entry per request: the result covers the registered children
    /// exactly, each exactly once.
    pub fn terminate_children(&self) -> (terminated: Vec<ActorId>)
        requires
            self.wf(),
        ensures
            terminated@.len() == self.children_map().dom().len(),
            forall|i: int|
                0 <= i < terminated@.len() ==> self.children_map().dom().contains(
                    (#[trigger] terminated@[i]).0,
                ),
            forall|i: int, j: int|
                0 <= i < j < terminated@.len() ==> terminated@[i].0 != terminated@[j].0,
    {
        let snapshot = handle_map_entries(&self.children);
        let ghost m = self.children_map();
        let mut terminated: Vec<ActorId> = Vec::new();
        let mut i: usize = 0;
        while i < snapshot.len()
            invariant
                i <= snapshot@.len(),
                terminated@.len() == i,
                forall|j: int|
                    0 <= j < snapshot@.len() ==> m.dom().contains((#[trigger] snapshot@[j]).0),
                forall|j: int|
                    0 <= j < snapshot@.len() ==> (#[trigger] snapshot@[j]).1.id
                        == m[snapshot@[j].0].id,
                forall|j: int, l: int|
                    0 <= j < l < snapshot@.len() ==> snapshot@[j].0 != snapshot@[l].0,
                forall|k: u64| m.dom().contains(k) ==> (#[trigger] m[k]).id.0 == k,
                forall|j: int| 0 <= j < i ==> (#[trigger] terminated@[j]).0 == snapshot@[j].0,
            decreases snapshot@.len() - i,
        {
            snapshot[i].1.terminate();
            let id = snapshot[i].1.identity();
            terminated.push(id);
            i = i + 1;
        }
        terminated
    }

    /// Whether `id` is currently a registered child.
    pub fn is_supervisor_of(&self, id: ActorId) -> (r: bool)
        ensures
            r == self.children_map().dom().contains(id.0),
    {
        handle_map_contains(&self.children, id.raw())
    }

    /// Whether `id` is currently a registered parent.
    pub fn is_child_of(&self, id: ActorId) -> (r: bool)
        ensures
            r == self.parents_map().dom().contains(id.0),
    {
        handle_map_contains(&self.parents, id.raw())
    }

    /// For every parent registered at call time, re-specialize `event` for
    /// the state type that parent expects and attempt non-blocking
    /// delivery of the re-specialized event (by `respecialize_for`, the
    /// identical event whenever the tags agree). A parent whose expected
    /// state type does not match is skipped, and a failed delivery (dead
    /// parent) is swallowed: the call itself never fails.
    ///
    /// Returns one report per registered parent, each parent exactly once:
    /// whether a delivery attempt was made to it, which holds exactly when
    /// its expected state type matches the event's.
    pub fn notify_supervisors(&self, event: SupervisionEvent) -> (report: Vec<DeliveryAttempt>)
        requires
            self.wf(),
        ensures
            report@.len() == self.parents_map().dom().len(),
            forall|i: int|
                0 <= i < report@.len() ==> {
                    let k = (#[trigger] report@[i]).parent.0;
                    &&& self.parents_map().dom().contains(k)
                    &&& (report@[i].attempted <==> self.parents_map()[k].state_tag
                        == event.state_tag)
                },
            forall|i: int, j: int|
                0 <= i < j < report@.len() ==> report@[i].parent.0 != report@[j].parent.0,
    {
        let recipients = handle_map_entries(&self.parents);
        let ghost m = self.parents_map();
        let mut report: Vec<DeliveryAttempt> = Vec::new();
        let mut i: usize = 0;
        while i < recipients.len()
            invariant
                i <= recipients@.len(),
                report@.len() == i,
                forall|j: int|
                    0 <= j < recipients@.len() ==> m.dom().contains((#[trigger] recipients@[j]).0),
                forall|j: int|
                    0 <= j < recipients@.len() ==> (#[trigger] recipients@[j]).1.id
                        == m[recipients@[j].0].id,
                forall|j: int|
                    0 <= j < recipients@.len() ==> (#[trigger] recipients@[j]).1.state_tag
                        == m[recipients@[j].0].state_tag,
                forall|j: int, l: int|
                    0 <= j < l < recipients@.len() ==> recipients@[j].0 != recipients@[l].0,
                forall|k: u64| m.dom().contains(k) ==> (#[trigger] m[k]).id.0 == k,
                forall|j: int| 0 <= j < i ==> (#[trigger] report@[j]).parent.0 == recipients@[j].0,
                forall|j: int|
                    0 <= j < i ==> ((#[trigger] report@[j]).attempted
                        <==> m[recipients@[j].0].state_tag == event.state_tag),
            decreases recipients@.len() - i,
        {
            let attempted = match event.respecialize_for(recipients[i].1.state_tag) {
                Ok(specialized) => {
                    let _ = recipients[i].1.deliver_supervision_event(specialized);
                    true
                },
                Err(_) => false,
            };
            let parent = recipients[i].1.identity();
            report.push(DeliveryAttempt { parent, attempted });
            i = i + 1;
        }
        report
    }

    /// The number of registered children.
    pub fn get_num_children(&self) -> (r: usize)
        ensures
            r == self.children_map().dom().len(),
    {
        handle_map_len(&self.children)
    }

    /// The number of registered parents.
    pub fn get_num_parents(&self) -> (r: usize)
        ensures
            r == self.parents_map().dom().len(),
    {
        handle_map_len(&self.parents)
    }
}

impl Default for SupervisionTree {
    /// Same as `SupervisionTree::new`: an empty registry.
    fn default() -> (r: Self)
        ensures
            r.wf(),
            r.children_map() == empty_handle_map(),
            r.parents_map() == empty_handle_map(),
    {
        SupervisionTree::new()
    }
}

} // verus!
