//! The store façade: database handles and the operations on them.
//!
//! Every operation is total over handle states: a closed handle acts
//! as a null handle and makes the operation a no-op that signals
//! failure, never a crash.

use crate::buffer::KvBuffer;
use crate::engine::{
    apply_ops, batch_new, batch_ops, batch_put, batch_wf, db_contents, engine_delete,
    engine_flush, engine_get, engine_ok, engine_open, engine_put, engine_write,
};
use vstd::prelude::*;

verus! {

/// A batch handle. It exclusively owns an ordered list of pending put
/// operations until a commit consumes it; a consumed handle is invalid
/// for good, the analogue of a null handle.
pub struct FlKvBatch {
    wb: Option<rusty_leveldb::WriteBatch>,
}

impl FlKvBatch {
    /// The pending put operations, in insertion order; a consumed
    /// handle holds none.
    pub closed spec fn view(&self) -> Seq<(Seq<u8>, Seq<u8>)> {
        match self.wb {
            Some(w) => batch_ops(w),
            None => Seq::empty(),
        }
    }

    /// Whether this handle still owns its operation list, that is, no
    /// commit has consumed it.
    pub closed spec fn is_live(&self) -> bool {
        self.wb is Some
    }

    /// Validity of the handle's engine-side state; every constructor
    /// establishes it and every operation preserves it.
    pub closed spec fn wf(&self) -> bool {
        match self.wb {
            Some(w) => batch_wf(w),
            None => true,
        }
    }
}

/// Allocates a new, empty batch; this always succeeds.
pub fn db_create_batch() -> (r: FlKvBatch)
    ensures
        r.wf(),
        r.is_live(),
        r@ == Seq::<(Seq<u8>, Seq<u8>)>::empty(),
{
    FlKvBatch { wb: Some(batch_new()) }
}

/// Appends one put operation to the batch, consuming both buffers.
/// Returns false exactly when the handle is invalid (consumed); the
/// buffers are reclaimed by this call either way.
pub fn batch_add_kv(batch: &mut FlKvBatch, key: KvBuffer, value: KvBuffer) -> (r: bool)
    requires
        old(batch).wf(),
        key.is_valid(),
        value.is_valid(),
    ensures
        final(batch).wf(),
        final(batch).is_live() == old(batch).is_live(),
        r == old(batch).is_live(),
        old(batch).is_live() ==> final(batch)@ == old(batch)@.push((key@, value@)),
        !old(batch).is_live() ==> final(batch)@ == old(batch)@,
{
    match &mut batch.wb {
        Some(wb) => {
            batch_put(wb, key.as_bytes(), value.as_bytes());
            true
        },
        None => false,
    }
}

/// Empties the batch's operation list; the handle stays valid and
/// usable. Returns false exactly when the handle is invalid.
/// A fresh engine batch stands in for the list: the engine's own clear
/// leaves a batch its later puts would not accept.
pub fn batch_clear(batch: &mut FlKvBatch) -> (r: bool)
    requires
        old(batch).wf(),
    ensures
        final(batch).wf(),
        final(batch).is_live() == old(batch).is_live(),
        r == old(batch).is_live(),
        final(batch)@ == Seq::<(Seq<u8>, Seq<u8>)>::empty(),
{
    match &mut batch.wb {
        Some(wb) => {
            *wb = batch_new();
            true
        },
        None => false,
    }
}

/// A database handle. An open handle exclusively owns one live store
/// engine; a closed handle is the analogue of a null handle, and every
/// operation treats it as such.
pub struct FlKv {
    pub(crate) db: Option<rusty_leveldb::DB>,
}

impl FlKv {
    /// The logical contents of the store this handle owns; a closed
    /// handle holds nothing.
    pub closed spec fn view(&self) -> Map<Seq<u8>, Seq<u8>> {
        match self.db {
            Some(d) => db_contents(d),
            None => Map::empty(),
        }
    }

    /// Whether this handle owns a live engine, that is, it has been
    /// opened and not yet closed.
    pub closed spec fn is_open(&self) -> bool {
        self.db is Some
    }

    /// Validity of the handle's engine-side state; every constructor
    /// establishes it and every operation preserves it.
    pub closed spec fn wf(&self) -> bool {
        match self.db {
            Some(d) => engine_ok(d),
            None => true,
        }
    }
}

/// The path an open call resolves: a missing path falls back to the
/// given default.
pub open spec fn spec_resolve_path(name: Option<Seq<char>>, default: Seq<char>) -> Seq<char> {
    match name {
        Some(s) => s,
        None => default,
    }
}

/// The view of an optional path string.
pub open spec fn opt_str_chars(name: Option<&str>) -> Option<Seq<char>> {
    match name {
        Some(s) => Some(s@),
        None => None,
    }
}

/// Resolves a possibly missing path to the literal `"default"`; a
/// caller whose path text could not be decoded passes `None`.
pub fn resolve_path<'a>(name: Option<&'a str>) -> (r: &'a str)
    ensures
        r@ == spec_resolve_path(opt_str_chars(name), "default"@),
{
    match name {
        Some(s) => s,
        None => "default",
    }
}

/// Resolves a possibly missing path to the given fallback.
pub fn resolve_path_or<'a>(name: Option<&'a str>, default: &'a str) -> (r: &'a str)
    ensures
        r@ == spec_resolve_path(opt_str_chars(name), default@),
{
    match name {
        Some(s) => s,
        None => default,
    }
}

/// Opens (creating if absent) the store at `name`, or an ephemeral
/// in-memory store when `memory` is set; a missing path falls back to
/// `"default"`. Returns `None` when the engine cannot open the store.
pub fn db_open(name: Option<&str>, memory: bool) -> (r: Option<FlKv>)
    ensures
        r matches Some(kv) ==> kv.wf() && kv.is_open() && (memory ==> kv@ == Map::<
            Seq<u8>,
            Seq<u8>,
        >::empty()),
{
    let path = resolve_path(name);
    match engine_open(path, memory) {
        Some(db) => Some(FlKv { db: Some(db) }),
        None => None,
    }
}

/// Writes one entry, consuming both buffers. On success the store maps
/// the key to the value; an invalid handle signals failure and leaves
/// everything unchanged. A failed engine write leaves entries staged
/// beyond the engine's visible horizon, so the engine is released and
/// the handle invalidated: after a failure nothing is observable
/// through it.
pub fn db_put(flkv: &mut FlKv, key: KvBuffer, value: KvBuffer) -> (r: bool)
    requires
        old(flkv).wf(),
        key.is_valid(),
        value.is_valid(),
    ensures
        final(flkv).wf(),
        !old(flkv).is_open() ==> !r && final(flkv)@ == old(flkv)@,
        r ==> old(flkv).is_open() && final(flkv).is_open() && final(flkv)@ == old(flkv)@.insert(
            key@,
            value@,
        ),
        !r ==> !final(flkv).is_open(),
{
    match flkv.db.take() {
        Some(mut db) => {
            let r = engine_put(&mut db, key.as_bytes(), value.as_bytes());
            if r {
                flkv.db = Some(db);
            }
            r
        },
        None => false,
    }
}

/// Turns an engine lookup result into the buffer a read returns: a
/// found value becomes a valid buffer owning exactly those bytes, and
/// nothing found becomes a valid empty buffer.
pub fn buffer_of_lookup(found: Option<Vec<u8>>) -> (r: KvBuffer)
    ensures
        r.is_valid(),
        found matches Some(v) ==> r@ == v@,
        found is None ==> r@ == Seq::<u8>::empty(),
{
    match found {
        Some(v) => KvBuffer::from_vec(v),
        None => KvBuffer::empty(),
    }
}

/// Reads one key, consuming the key buffer. An open handle yields an
/// owned valid buffer: the stored value when the engine answers the
/// read, the empty buffer when the key is absent. An invalid handle
/// yields the null buffer.
pub fn db_get(flkv: &mut FlKv, key: KvBuffer) -> (r: KvBuffer)
    requires
        old(flkv).wf(),
        key.is_valid(),
    ensures
        final(flkv).wf(),
        final(flkv).is_open() == old(flkv).is_open(),
        final(flkv)@ == old(flkv)@,
        r.is_valid() == old(flkv).is_open(),
        old(flkv).is_open() && !old(flkv)@.contains_key(key@) ==> r@ == Seq::<u8>::empty(),
        old(flkv).is_open() ==> r@ == Seq::<u8>::empty() || (old(flkv)@.contains_key(key@)
            && r@ == old(flkv)@[key@]),
{
    match &mut flkv.db {
        Some(db) => {
            let found = engine_get(db, key.as_bytes());
            buffer_of_lookup(found)
        },
        None => KvBuffer::null(),
    }
}

/// Deletes one key, consuming the key buffer. On success the store no
/// longer maps the key; deleting an absent key succeeds too. An
/// invalid handle signals failure and leaves everything unchanged. A
/// failed engine write leaves a tombstone staged beyond the engine's
/// visible horizon, so the engine is released and the handle
/// invalidated: after a failure nothing is observable through it.
pub fn db_delete(flkv: &mut FlKv, key: KvBuffer) -> (r: bool)
    requires
        old(flkv).wf(),
        key.is_valid(),
    ensures
        final(flkv).wf(),
        !old(flkv).is_open() ==> !r && final(flkv)@ == old(flkv)@,
        r ==> old(flkv).is_open() && final(flkv).is_open() && final(flkv)@ == old(flkv)@.remove(
            key@,
        ),
        !r ==> !final(flkv).is_open(),
{
    match flkv.db.take() {
        Some(mut db) => {
            let r = engine_delete(&mut db, key.as_bytes());
            if r {
                flkv.db = Some(db);
            }
            r
        },
        None => false,
    }
}

/// Forces durability of prior writes. The logical contents never
/// change; an invalid handle signals failure.
pub fn db_flush(flkv: &mut FlKv) -> (r: bool)
    requires
        old(flkv).wf(),
    ensures
        final(flkv).wf(),
        final(flkv).is_open() == old(flkv).is_open(),
        final(flkv)@ == old(flkv)@,
        !old(flkv).is_open() ==> !r,
{
    match &mut flkv.db {
        Some(db) => engine_flush(db),
        None => false,
    }
}

/// Commits the batch into the store as one atomic unit, consuming the
/// batch handle whatever the outcome; `sync` makes the commit block
/// until durable. On success every entry is applied in insertion
/// order. An invalid handle on either side signals failure and leaves
/// the store unchanged, and still destroys the batch handle. A failed
/// engine write leaves entries staged beyond the engine's visible
/// horizon, so the engine is released and the database handle
/// invalidated: no partial commit is ever observable.
pub fn db_put_batch(flkv: &mut FlKv, batch: &mut FlKvBatch, sync: bool) -> (r: bool)
    requires
        old(flkv).wf(),
        old(batch).wf(),
    ensures
        final(flkv).wf(),
        final(batch).wf(),
        !final(batch).is_live(),
        !old(batch).is_live() ==> !r && final(flkv)@ == old(flkv)@ && final(flkv).is_open()
            == old(flkv).is_open(),
        !old(flkv).is_open() ==> !r && final(flkv)@ == old(flkv)@ && !final(flkv).is_open(),
        r ==> old(flkv).is_open() && old(batch).is_live() && final(flkv).is_open()
            && final(flkv)@ == apply_ops(old(flkv)@, old(batch)@),
        !r && old(batch).is_live() && old(flkv).is_open() ==> !final(flkv).is_open(),
{
    match batch.wb.take() {
        None => false,
        Some(wb) => match flkv.db.take() {
            Some(mut db) => {
                let r = engine_write(&mut db, wb, sync);
                if r {
                    flkv.db = Some(db);
                }
                r
            },
            None => false,
        },
    }
}

/// Releases the engine and invalidates the handle; closing an already
/// closed handle is a silent no-op.
pub fn db_close(flkv: &mut FlKv)
    requires
        old(flkv).wf(),
    ensures
        final(flkv).wf(),
        !final(flkv).is_open(),
        final(flkv)@ == Map::<Seq<u8>, Seq<u8>>::empty(),
{
    flkv.db = None;
}

} // verus!
