//! A memory-safe call boundary over an embedded ordered key-value
//! store: opaque database and batch handles, owned byte buffers, and an
//! atomic batch commit, with failure signalled by booleans and null
//! sentinels instead of errors.

mod buffer;
mod engine;
mod laws;
mod store;

pub use buffer::KvBuffer;
pub use engine::apply_ops;
pub use laws::{
    lemma_apply_ops_push, lemma_batch_commit_two, lemma_delete_absent, lemma_delete_then_get,
    lemma_path_fallback, lemma_put_then_get,
};
pub use store::{
    batch_add_kv, batch_clear, buffer_of_lookup, db_close, db_create_batch, db_delete, db_flush,
    db_get, db_open, db_put, db_put_batch, opt_str_chars, resolve_path, resolve_path_or,
    spec_resolve_path, FlKv, FlKvBatch,
};
