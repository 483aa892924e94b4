//! Laws of the supervision registry, stated and proved over the same
//! mathematical contents that the registry's contracts speak of.

use vstd::prelude::*;
use crate::handle::ActorHandle;

verus! {

broadcast use vstd::set::group_set_axioms, vstd::map::group_map_axioms;

/// One operation on a single identity in a handle collection: register a
/// handle under it, or unregister it.
pub enum RegistryOp {
    /// Register this handle, as `insert_child`/`insert_parent` do.
    Register(ActorHandle),
    /// Unregister, as `remove_child`/`remove_parent` do.
    Unregister,
}

/// The contents after one operation on the identity `id`. This is exactly
/// the step that `insert_child`/`remove_child` (and the parent pair) take,
/// by their contracts.
pub open spec fn apply_op(m: Map<u64, ActorHandle>, id: u64, op: RegistryOp) -> Map<
    u64,
    ActorHandle,
> {
    match op {
        RegistryOp::Register(h) => m.insert(id, h),
        RegistryOp::Unregister => m.remove(id),
    }
}

/// The contents after a sequence of operations on `id`, applied in order.
pub open spec fn apply_ops(m: Map<u64, ActorHandle>, id: u64, ops: Seq<RegistryOp>) -> Map<
    u64,
    ActorHandle,
>
    decreases ops.len(),
{
    if ops.len() == 0 {
        m
    } else {
        apply_ops(apply_op(m, id, ops[0]), id, ops.subrange(1, ops.len() as int))
    }
}

/// Net-membership law: any sequence of register/unregister operations on
/// one identity leaves every other identity untouched; whether the identity
/// is registered afterwards depends only on the last operation (so an
/// unregister of an absent identity is a no-op); and the count afterwards
/// — what `get_num_children`/`get_num_parents` report — is the count of
/// the other identities plus one exactly when the identity is registered.
pub proof fn lemma_net_membership_effect(m: Map<u64, ActorHandle>, id: u64, ops: Seq<RegistryOp>)
    requires
        m.dom().finite(),
    ensures
        apply_ops(m, id, ops).dom().finite(),
        apply_ops(m, id, ops).remove(id) == m.remove(id),
        ops.len() == 0 ==> apply_ops(m, id, ops) == m,
        ops.len() > 0 ==> (apply_ops(m, id, ops).dom().contains(id) <==> ops.last() is Register),
        apply_ops(m, id, ops).dom().len() == m.remove(id).dom().len() + (if apply_ops(
            m,
            id,
            ops,
        ).dom().contains(id) {
            1int
        } else {
            0int
        }),
    decreases ops.len(),
{
    if ops.len() == 0 {
        assert(m.remove(id).dom() =~= m.dom().remove(id));
    } else {
        let m1 = apply_op(m, id, ops[0]);
        let rest = ops.subrange(1, ops.len() as int);
        match ops[0] {
            RegistryOp::Register(h) => {
                assert(m1.remove(id) =~= m.remove(id));
            },
            RegistryOp::Unregister => {
                assert(m1.remove(id) =~= m.remove(id));
            },
        }
        lemma_net_membership_effect(m1, id, rest);
        if rest.len() == 0 {
            assert(ops.last() == ops[0]);
        } else {
            assert(rest.last() == ops.last());
        }
    }
}

/// The contents after registering each of `entries` in order, each handle
/// under its paired identity.
pub open spec fn apply_registrations(
    m: Map<u64, ActorHandle>,
    entries: Seq<(u64, ActorHandle)>,
) -> Map<u64, ActorHandle>
    decreases entries.len(),
{
    if entries.len() == 0 {
        m
    } else {
        apply_registrations(
            m.insert(entries[0].0, entries[0].1),
            entries.subrange(1, entries.len() as int),
        )
    }
}

/// No-lost-registration law: registering any number of handles with
/// distinct identities, none of them registered before, never loses an
/// entry — every identity already present stays present, every registered
/// identity is present afterwards, and the final count is the prior count
/// plus exactly the number of registrations.
pub proof fn lemma_distinct_registrations_count(
    m: Map<u64, ActorHandle>,
    entries: Seq<(u64, ActorHandle)>,
)
    requires
        m.dom().finite(),
        forall|i: int, j: int|
            0 <= i < j < entries.len() ==> (#[trigger] entries[i]).0 != (#[trigger] entries[j]).0,
        forall|i: int| 0 <= i < entries.len() ==> !m.dom().contains((#[trigger] entries[i]).0),
    ensures
        apply_registrations(m, entries).dom().finite(),
        apply_registrations(m, entries).dom().len() == m.dom().len() + entries.len(),
        forall|k: u64|
            m.dom().contains(k) ==> #[trigger] apply_registrations(m, entries).dom().contains(k),
        forall|i: int|
            0 <= i < entries.len() ==> apply_registrations(m, entries).dom().contains(
                (#[trigger] entries[i]).0,
            ),
    decreases entries.len(),
{
    if entries.len() > 0 {
        let m1 = m.insert(entries[0].0, entries[0].1);
        let rest = entries.subrange(1, entries.len() as int);
        assert(!m.dom().contains(entries[0].0));
        assert(m1.dom().len() == m.dom().len() + 1);
        assert forall|i: int| 0 <= i < rest.len() implies !m1.dom().contains(
            (#[trigger] rest[i]).0,
        ) by {
            assert(rest[i] == entries[i + 1]);
            assert(entries[0].0 != entries[i + 1].0);
            assert(!m.dom().contains(entries[i + 1].0));
        }
        assert forall|i: int, j: int| 0 <= i < j < rest.len() implies (#[trigger] rest[i]).0 != (
        #[trigger] rest[j]).0 by {
            assert(rest[i] == entries[i + 1]);
            assert(rest[j] == entries[j + 1]);
        }
        lemma_distinct_registrations_count(m1, rest);
        assert forall|i: int|
            0 <= i < entries.len() implies apply_registrations(m, entries).dom().contains(
            (#[trigger] entries[i]).0,
        ) by {
            if i == 0 {
                assert(m1.dom().contains(entries[0].0));
                assert(apply_registrations(m1, rest).dom().contains(entries[0].0));
            } else {
                assert(rest[i - 1] == entries[i]);
                assert(apply_registrations(m1, rest).dom().contains(rest[i - 1].0));
            }
        }
    }
}

} // verus!
