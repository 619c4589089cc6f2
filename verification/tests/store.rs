use flkv::{
    batch_add_kv, batch_clear, buffer_of_lookup, db_close, db_create_batch, db_delete, db_flush,
    db_get, db_open, db_put, db_put_batch, resolve_path, resolve_path_or, KvBuffer,
};

fn buf(s: &str) -> KvBuffer {
    KvBuffer::from_vec(s.as_bytes().to_vec())
}

fn get_bytes(kv: &mut flkv::FlKv, key: &str) -> Vec<u8> {
    let b = db_get(kv, buf(key));
    assert!(b.valid());
    b.into_vec()
}

#[test]
fn test_cstr() {
    let str = resolve_path(Some("aaaa"));
    assert_eq!("aaaa", str);
    let str_with_default = resolve_path(None);
    assert_eq!("default", str_with_default);
    let str_with_custom = resolve_path_or(None, "custom");
    assert_eq!("custom", str_with_custom);
}

#[test]
fn round_trip() {
    let mut kv = db_open(Some("rt"), true).expect("open in-memory store");
    assert!(db_put(&mut kv, buf("k"), buf("some value")));
    assert_eq!(get_bytes(&mut kv, "k"), b"some value".to_vec());
    db_close(&mut kv);
}

#[test]
fn absent_key_empty() {
    let mut kv = db_open(Some("absent"), true).expect("open in-memory store");
    let b = db_get(&mut kv, buf("never written"));
    assert!(b.valid());
    assert!(b.into_vec().is_empty());
    db_close(&mut kv);
}

#[test]
fn delete_then_get() {
    let mut kv = db_open(Some("del"), true).expect("open in-memory store");
    assert!(db_put(&mut kv, buf("k"), buf("v")));
    assert!(db_delete(&mut kv, buf("k")));
    let b = db_get(&mut kv, buf("k"));
    assert!(b.valid());
    assert!(b.into_vec().is_empty());
    db_close(&mut kv);
}

#[test]
fn delete_missing_succeeds() {
    let mut kv = db_open(Some("delmiss"), true).expect("open in-memory store");
    assert!(db_delete(&mut kv, buf("nothing here")));
    db_close(&mut kv);
}

#[test]
fn batch_commit_scenario() {
    let mut kv = db_open(Some("mem1"), true).expect("open in-memory store");
    assert!(db_put(&mut kv, buf("a"), buf("1")));
    assert!(db_put(&mut kv, buf("b"), buf("2")));
    let mut batch = db_create_batch();
    assert!(batch_add_kv(&mut batch, buf("a"), buf("9")));
    assert!(db_put_batch(&mut kv, &mut batch, true));
    assert_eq!(get_bytes(&mut kv, "a"), b"9".to_vec());
    assert_eq!(get_bytes(&mut kv, "b"), b"2".to_vec());
    db_close(&mut kv);
}

#[test]
fn batch_two_entries_visible_together() {
    let mut kv = db_open(Some("atomic"), true).expect("open in-memory store");
    let mut batch = db_create_batch();
    assert!(batch_add_kv(&mut batch, buf("k1"), buf("v1")));
    assert!(batch_add_kv(&mut batch, buf("k2"), buf("v2")));
    // Nothing is visible before the commit.
    let pre = db_get(&mut kv, buf("k1"));
    assert!(pre.valid());
    assert!(pre.into_vec().is_empty());
    assert!(db_put_batch(&mut kv, &mut batch, true));
    assert_eq!(get_bytes(&mut kv, "k1"), b"v1".to_vec());
    assert_eq!(get_bytes(&mut kv, "k2"), b"v2".to_vec());
    db_close(&mut kv);
}

#[test]
fn recommit_consumed_batch() {
    let mut kv = db_open(Some("recommit"), true).expect("open in-memory store");
    assert!(db_put(&mut kv, buf("x"), buf("old")));
    let mut batch = db_create_batch();
    assert!(batch_add_kv(&mut batch, buf("x"), buf("new")));
    assert!(db_put_batch(&mut kv, &mut batch, true));
    // A second commit of the same, now consumed, handle fails and the
    // store keeps its contents.
    assert!(!db_put_batch(&mut kv, &mut batch, true));
    assert!(!batch_add_kv(&mut batch, buf("y"), buf("z")));
    assert_eq!(get_bytes(&mut kv, "x"), b"new".to_vec());
    db_close(&mut kv);
}

#[test]
fn closed_handle_safe() {
    let mut kv = db_open(Some("closed"), true).expect("open in-memory store");
    assert!(db_put(&mut kv, buf("k"), buf("v")));
    db_close(&mut kv);
    assert!(!db_put(&mut kv, buf("k"), buf("w")));
    let b = db_get(&mut kv, buf("k"));
    assert!(!b.valid());
    assert!(!db_delete(&mut kv, buf("k")));
    assert!(!db_flush(&mut kv));
    let mut batch = db_create_batch();
    assert!(batch_add_kv(&mut batch, buf("k"), buf("v")));
    assert!(!db_put_batch(&mut kv, &mut batch, false));
    // The batch was still consumed by the failed commit.
    assert!(!batch_add_kv(&mut batch, buf("k"), buf("v")));
    // Closing again is a silent no-op.
    db_close(&mut kv);
}

#[test]
fn clear_keeps_handle() {
    let mut kv = db_open(Some("clear"), true).expect("open in-memory store");
    let mut batch = db_create_batch();
    assert!(batch_add_kv(&mut batch, buf("gone"), buf("1")));
    assert!(batch_clear(&mut batch));
    assert!(batch_add_kv(&mut batch, buf("kept"), buf("2")));
    assert!(db_put_batch(&mut kv, &mut batch, true));
    let gone = db_get(&mut kv, buf("gone"));
    assert!(gone.valid());
    assert!(gone.into_vec().is_empty());
    assert_eq!(get_bytes(&mut kv, "kept"), b"2".to_vec());
    db_close(&mut kv);
}

#[test]
fn flush_keeps_contents() {
    let mut kv = db_open(Some("flush"), true).expect("open in-memory store");
    assert!(db_put(&mut kv, buf("k"), buf("v")));
    assert!(db_flush(&mut kv));
    assert_eq!(get_bytes(&mut kv, "k"), b"v".to_vec());
    db_close(&mut kv);
}

#[test]
fn open_missing_path_works() {
    // A missing path falls back to "default"; with the in-memory mode
    // no file is touched and the store works as usual.
    let mut kv = db_open(None, true).expect("open in-memory store");
    assert!(db_put(&mut kv, buf("k"), buf("v")));
    assert_eq!(get_bytes(&mut kv, "k"), b"v".to_vec());
    db_close(&mut kv);
}

#[test]
fn buffer_ownership() {
    let empty = KvBuffer::empty();
    assert!(empty.valid());
    assert!(empty.as_bytes().is_empty());
    let owned = KvBuffer::from_vec(vec![1u8, 2, 3]);
    assert!(owned.valid());
    assert_eq!(owned.as_bytes(), &[1u8, 2, 3]);
    assert_eq!(owned.into_vec(), vec![1u8, 2, 3]);
    let null = KvBuffer::null();
    assert!(!null.valid());
}

#[test]
fn lookup_buffer_conversion() {
    let found = buffer_of_lookup(Some(vec![7u8, 8]));
    assert!(found.valid());
    assert_eq!(found.into_vec(), vec![7u8, 8]);
    let missing = buffer_of_lookup(None);
    assert!(missing.valid());
    assert!(missing.into_vec().is_empty());
}

#[test]
fn separate_stores_independent() {
    let mut kv1 = db_open(Some("s1"), true).expect("open in-memory store");
    let mut kv2 = db_open(Some("s2"), true).expect("open in-memory store");
    assert!(db_put(&mut kv1, buf("k"), buf("one")));
    let b = db_get(&mut kv2, buf("k"));
    assert!(b.valid());
    assert!(b.into_vec().is_empty());
    assert_eq!(get_bytes(&mut kv1, "k"), b"one".to_vec());
    db_close(&mut kv1);
    db_close(&mut kv2);
}
