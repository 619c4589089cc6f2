//! Trusted boundary to the store engine.
//!
//! The engine (rusty_leveldb) keeps an ordered key-value store. Verified
//! code sees it through the names below: `db_contents` gives the logical
//! map a store holds, `batch_ops` the ordered put operations a write
//! batch holds. Every call into the engine goes through one of the
//! wrappers here.

use vstd::prelude::*;

verus! {

/// Declares rusty_leveldb::DB, the engine's store type, as an opaque
/// value.
#[verifier::external_type_specification]
#[verifier::external_body]
pub struct ExDb(rusty_leveldb::DB);

/// Declares rusty_leveldb::WriteBatch, the engine's batch type, as an
/// opaque value.
#[verifier::external_type_specification]
#[verifier::external_body]
pub struct ExWriteBatch(rusty_leveldb::WriteBatch);

/// The logical contents of a store: the map from keys to values that
/// reads observe.
pub uninterp spec fn db_contents(db: rusty_leveldb::DB) -> Map<Seq<u8>, Seq<u8>>;

/// A store in the healthy state that `DB::open` establishes and every
/// successful wrapper call below preserves: its write log is in place
/// and no entries sit staged beyond the visible sequence horizon, so
/// no engine call made here panics. A failed write forfeits this
/// state — the engine stages entries in its memtable before the log
/// write, and a failure strands them there — so the write wrappers
/// promise it of the final state only on success, and a caller must
/// stop using a store whose write failed.
pub uninterp spec fn engine_ok(db: rusty_leveldb::DB) -> bool;

/// The ordered put operations a write batch holds, as (key, value)
/// pairs in insertion order.
pub uninterp spec fn batch_ops(wb: rusty_leveldb::WriteBatch) -> Seq<(Seq<u8>, Seq<u8>)>;

/// A write batch as `WriteBatch::default` builds it and `WriteBatch::put`
/// extends it: its header is intact and it holds put operations only.
pub uninterp spec fn batch_wf(wb: rusty_leveldb::WriteBatch) -> bool;

/// The map that applying an ordered list of put operations to `m`
/// leaves behind: operations are applied first to last, so a later
/// entry for the same key shadows an earlier one.
pub open spec fn apply_ops(m: Map<Seq<u8>, Seq<u8>>, ops: Seq<(Seq<u8>, Seq<u8>)>) -> Map<
    Seq<u8>,
    Seq<u8>,
>
    decreases ops.len(),
{
    if ops.len() == 0 {
        m
    } else {
        apply_ops(m, ops.drop_last()).insert(ops.last().0, ops.last().1)
    }
}

/// Relies on rusty_leveldb::DB::open: it opens (creating if absent) the
/// store at `path`, or a fresh ephemeral store when `memory` is set; a
/// store opened on the fresh in-memory environment holds nothing.
#[verifier::external_body]
pub(crate) fn engine_open(path: &str, memory: bool) -> (r: Option<rusty_leveldb::DB>)
    ensures
        r matches Some(db) ==> engine_ok(db) && (memory ==> db_contents(db) == Map::<
            Seq<u8>,
            Seq<u8>,
        >::empty()),
{
    let opt = if memory {
        rusty_leveldb::in_memory()
    } else {
        rusty_leveldb::Options::default()
    };
    match rusty_leveldb::DB::open(path, opt) {
        Ok(db) => Some(db),
        Err(_) => None,
    }
}

/// Relies on rusty_leveldb::DB::put: on success the store maps `key` to
/// `value` and everything else is unchanged. A failed put strands its
/// entry beyond the visible horizon, so nothing is relied on of the
/// store afterwards.
#[verifier::external_body]
pub(crate) fn engine_put(db: &mut rusty_leveldb::DB, key: &[u8], value: &[u8]) -> (r: bool)
    requires
        engine_ok(*old(db)),
    ensures
        r ==> engine_ok(*final(db)) && db_contents(*final(db)) == db_contents(
            *old(db),
        ).insert(key@, value@),
{
    db.put(key, value).is_ok()
}

/// Relies on rusty_leveldb::DB::get: a returned value is exactly what
/// the store maps the key to (a read error is folded into `None` by the
/// engine, so `None` alone does not witness absence); reading leaves
/// the logical contents as they were.
#[verifier::external_body]
pub(crate) fn engine_get(db: &mut rusty_leveldb::DB, key: &[u8]) -> (r: Option<Vec<u8>>)
    requires
        engine_ok(*old(db)),
    ensures
        engine_ok(*final(db)),
        db_contents(*final(db)) == db_contents(*old(db)),
        r matches Some(v) ==> db_contents(*old(db)).contains_key(key@) && v@ == db_contents(
            *old(db),
        )[key@],
{
    db.get(key).map(|b| b.to_vec())
}

/// Relies on rusty_leveldb::DB::delete: on success the store no longer
/// maps `key` and everything else is unchanged; deleting an absent key
/// succeeds the same way. A failed delete strands its tombstone beyond
/// the visible horizon, so nothing is relied on of the store
/// afterwards.
#[verifier::external_body]
pub(crate) fn engine_delete(db: &mut rusty_leveldb::DB, key: &[u8]) -> (r: bool)
    requires
        engine_ok(*old(db)),
    ensures
        r ==> engine_ok(*final(db)) && db_contents(*final(db)) == db_contents(
            *old(db),
        ).remove(key@),
{
    db.delete(key).is_ok()
}

/// Relies on rusty_leveldb::DB::flush: it forces pending writes to the
/// log and never changes the logical contents.
#[verifier::external_body]
pub(crate) fn engine_flush(db: &mut rusty_leveldb::DB) -> (r: bool)
    requires
        engine_ok(*old(db)),
    ensures
        engine_ok(*final(db)),
        db_contents(*final(db)) == db_contents(*old(db)),
{
    db.flush().is_ok()
}

/// Relies on rusty_leveldb::DB::write: on success the batch's put
/// operations are applied in insertion order as one unit; `sync` only
/// controls whether the call blocks until the write is durable. A
/// failed write strands the batch's entries beyond the visible
/// horizon, so nothing is relied on of the store afterwards.
#[verifier::external_body]
pub(crate) fn engine_write(
    db: &mut rusty_leveldb::DB,
    batch: rusty_leveldb::WriteBatch,
    sync: bool,
) -> (r: bool)
    requires
        engine_ok(*old(db)),
        batch_wf(batch),
    ensures
        r ==> engine_ok(*final(db)) && db_contents(*final(db)) == apply_ops(
            db_contents(*old(db)),
            batch_ops(batch),
        ),
{
    db.write(batch, sync).is_ok()
}

/// Relies on rusty_leveldb::WriteBatch::default: a fresh batch holds no
/// operations.
#[verifier::external_body]
pub(crate) fn batch_new() -> (r: rusty_leveldb::WriteBatch)
    ensures
        batch_wf(r),
        batch_ops(r) == Seq::<(Seq<u8>, Seq<u8>)>::empty(),
{
    rusty_leveldb::WriteBatch::default()
}

/// Relies on rusty_leveldb::WriteBatch::put: it appends one put
/// operation, keeping the ones already there and their order.
#[verifier::external_body]
pub(crate) fn batch_put(wb: &mut rusty_leveldb::WriteBatch, key: &[u8], value: &[u8])
    requires
        batch_wf(*old(wb)),
    ensures
        batch_wf(*final(wb)),
        batch_ops(*final(wb)) == batch_ops(*old(wb)).push((key@, value@)),
{
    wb.put(key, value);
}

} // verus!
