//! Laws of the store model: what holds of the logical contents that
//! the operation contracts speak of.

use crate::engine::apply_ops;
use crate::store::spec_resolve_path;
use vstd::prelude::*;

verus! {

/// Round trip: after a put of `(k, v)` the store maps `k` to exactly
/// `v`, so a read of `k` that the engine answers yields `v`.
pub proof fn lemma_put_then_get(m: Map<Seq<u8>, Seq<u8>>, k: Seq<u8>, v: Seq<u8>)
    ensures
        m.insert(k, v).contains_key(k),
        m.insert(k, v)[k] == v,
{
}

/// Delete: after a delete of `k` the store no longer maps `k`, so a
/// read of `k` yields the empty buffer.
pub proof fn lemma_delete_then_get(m: Map<Seq<u8>, Seq<u8>>, k: Seq<u8>)
    ensures
        !m.remove(k).contains_key(k),
{
}

/// Deleting a key the store does not map leaves the store as it was.
pub proof fn lemma_delete_absent(m: Map<Seq<u8>, Seq<u8>>, k: Seq<u8>)
    requires
        !m.contains_key(k),
    ensures
        m.remove(k) == m,
{
    assert(m.remove(k) =~= m);
}

/// Batch order: committing a batch extended by one more entry applies
/// that entry last, so batch entries take effect in insertion order
/// and a later entry for the same key shadows an earlier one.
pub proof fn lemma_apply_ops_push(
    m: Map<Seq<u8>, Seq<u8>>,
    ops: Seq<(Seq<u8>, Seq<u8>)>,
    k: Seq<u8>,
    v: Seq<u8>,
)
    ensures
        apply_ops(m, ops.push((k, v))) == apply_ops(m, ops).insert(k, v),
{
    let pushed = ops.push((k, v));
    assert(pushed.drop_last() =~= ops);
    assert(pushed.last() == (k, v));
}

/// Batch atomicity: committing a batch built from the two entries
/// `(k1, v1)` and `(k2, v2)` makes both visible together.
pub proof fn lemma_batch_commit_two(
    m: Map<Seq<u8>, Seq<u8>>,
    k1: Seq<u8>,
    v1: Seq<u8>,
    k2: Seq<u8>,
    v2: Seq<u8>,
)
    requires
        k1 != k2,
    ensures
        apply_ops(m, seq![(k1, v1), (k2, v2)]).contains_key(k1),
        apply_ops(m, seq![(k1, v1), (k2, v2)])[k1] == v1,
        apply_ops(m, seq![(k1, v1), (k2, v2)]).contains_key(k2),
        apply_ops(m, seq![(k1, v1), (k2, v2)])[k2] == v2,
{
    let ops = seq![(k1, v1), (k2, v2)];
    let one = seq![(k1, v1)];
    assert(ops.drop_last() =~= one);
    assert(one.drop_last() =~= Seq::<(Seq<u8>, Seq<u8>)>::empty());
    assert(one.last() == (k1, v1));
    assert(ops.last() == (k2, v2));
    assert(apply_ops(m, one.drop_last()) == m);
    assert(apply_ops(m, one) == m.insert(k1, v1));
    assert(apply_ops(m, ops) == m.insert(k1, v1).insert(k2, v2));
}

/// Path fallback: opening with a missing path resolves to the same
/// engine path as opening with the literal `"default"`, so the two
/// calls behave identically.
pub proof fn lemma_path_fallback()
    ensures
        spec_resolve_path(None, "default"@) == spec_resolve_path(Some("default"@), "default"@),
{
}

} // verus!
