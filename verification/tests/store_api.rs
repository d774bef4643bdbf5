use cute_sqlite_kv::{BlobStore, KVStore};

use tempfile::tempdir;

#[test]
fn test_new_in_memory() {
    let _ = KVStore::new_in_memory().unwrap();
}

#[test]
fn test_new_from_file() {
    let temp_dir = tempdir().expect("Failed to create temp directory");
    let filename = temp_dir.path().join("kvstore.db");
    let _ = KVStore::new_from_file(&filename).unwrap();
}

#[test]
fn test_new_from_file_more() {
    let temp_dir = tempdir().expect("Failed to create temp directory");
    let filename = temp_dir.path().join("kvstore.db");
    let mut kvstore = KVStore::new_from_file(&filename).unwrap();
    let key = "test_key";
    let value = "test_value";
    kvstore.insert(key, value).unwrap();
    let result = kvstore.get(key).unwrap();
    assert_eq!(result, Some(value.to_string()));
}

#[test]
fn test_reopen_database() {
    let temp_dir = tempfile::tempdir().expect("Failed to create temp directory");
    let filename = temp_dir.path().join("kvstore.db");
    {
        let mut kvstore = KVStore::new_from_file(&filename).unwrap();
        let key = "test_key";
        let value = "test_value";
        kvstore.insert(key, value).unwrap();
    }
    {
        let kvstore = KVStore::new_from_file(&filename).unwrap();
        let key = "test_key";
        let result = kvstore.get(key).unwrap();
        assert_eq!(result, Some("test_value".to_string()));
    }
}

#[test]
fn test_insert_and_get() {
    let mut kvstore = KVStore::new_in_memory().unwrap();
    let key = "test_key";
    let value = "test_value";
    kvstore.insert(key, value).unwrap();
    let result = kvstore.get(key).unwrap();
    assert_eq!(result, Some(value.to_string()));
}

#[test]
fn test_get_nonexistent_key() {
    let kvstore = KVStore::new_in_memory().unwrap();
    let key = "nonexistent_key";
    let result = kvstore.get(key).unwrap();
    assert_eq!(result, None);
}

#[test]
fn test_remove() {
    let mut kvstore = KVStore::new_in_memory().unwrap();
    let key = "test_key";
    let value = "test_value";
    kvstore.insert(key, value).unwrap();
    let old_value = kvstore.remove(key).unwrap();
    assert_eq!(old_value, Some(value.to_string()));
    let result = kvstore.get(key).unwrap();
    assert_eq!(result, None);
}

#[test]
fn test_remove_nonexistent_key() {
    let mut kvstore = KVStore::new_in_memory().unwrap();
    let key = "nonexistent_key";
    let old_value = kvstore.remove(key).unwrap();
    assert_eq!(old_value, None);
    let result = kvstore.get(key).unwrap();
    assert_eq!(result, None);
}

#[test]
fn test_clear() {
    let mut kvstore = KVStore::new_in_memory().unwrap();
    let key = "test_key";
    let value = "test_value";
    kvstore.insert(key, value).unwrap();
    kvstore.clear().unwrap();
    let result = kvstore.get(key).unwrap();
    assert_eq!(result, None);
}

#[test]
fn test_many_connections() {
    let temp_dir = tempfile::tempdir().expect("Failed to create temp directory");
    let filename = temp_dir.path().join("kvstore.db");

    // Create the first connection and add a key
    {
        let mut kvstore = KVStore::new_from_file(&filename).unwrap();
        let key = "test_key";
        let value = "test_value";
        kvstore.insert(key, value).unwrap();
    }

    // Check if the key is there
    {
        let kvstore = KVStore::new_from_file(&filename).unwrap();
        let key = "test_key";
        let result = kvstore.get(key).unwrap();
        assert_eq!(result, Some("test_value".to_string()));
    }

    // remove the key
    {
        let mut kvstore = KVStore::new_from_file(&filename).unwrap();
        let key = "test_key";
        kvstore.remove(key).unwrap();
    }

    // Check if the key is gone
    {
        let kvstore = KVStore::new_from_file(&filename).unwrap();
        let key = "test_key";
        let result = kvstore.get(key).unwrap();
        assert_eq!(result, None);
    }
}

#[test]
fn test_overlapping_connections() {
    let temp_dir = tempfile::tempdir().expect("Failed to create temp directory");
    let filename = temp_dir.path().join("kvstore.db");

    let mut kvstore = KVStore::new_from_file(&filename).unwrap();

    // Create the first connection and add a key
    {
        let key = "test_key";
        let value = "test_value";
        kvstore.insert(key, value).unwrap();
    }

    let mut kvstore2 = KVStore::new_from_file(&filename).unwrap();

    // Check if the key is there
    {
        let key = "test_key";
        let result = kvstore2.get(key).unwrap();
        assert_eq!(result, Some("test_value".to_string()));
    }

    // remove the key
    {
        let key = "test_key";
        kvstore2.remove(key).unwrap();
    }

    // Check if the key is gone
    {
        let key = "test_key";
        let result = kvstore.get(key).unwrap();
        assert_eq!(result, None);
    }
}

#[test]
fn test_insert_multiple_times() {
    let mut kvstore = KVStore::new_in_memory().unwrap();
    let key = "test_key";
    let value1 = "test_value1";
    let value2 = "test_value2";
    let value3 = "test_value3";

    kvstore.insert(key, value1).unwrap();
    let result1 = kvstore.get(key).unwrap();
    assert_eq!(result1, Some(value1.to_string()));

    kvstore.insert(key, value2).unwrap();
    let result2 = kvstore.get(key).unwrap();
    assert_eq!(result2, Some(value2.to_string()));

    kvstore.insert(key, value3).unwrap();
    let result3 = kvstore.get(key).unwrap();
    assert_eq!(result3, Some(value3.to_string()));
}

#[test]
fn test_blob_roundtrip() {
    let mut store = BlobStore::new_in_memory().unwrap();
    // Deliberately not valid UTF-8.
    let value: &[u8] = &[0u8, 159, 146, 150, 255];
    store.insert("key", value).unwrap();
    assert_eq!(store.get("key").unwrap(), Some(value.to_vec()));
    assert_eq!(store.remove("key").unwrap(), Some(value.to_vec()));
    assert_eq!(store.get("key").unwrap(), None);
}

#[test]
fn test_blob_reopen() {
    let temp_dir = tempdir().expect("Failed to create temp directory");
    let filename = temp_dir.path().join("blobstore.db");
    let value: &[u8] = &[10, 20, 0, 255, 128];
    {
        let mut store = BlobStore::new_from_file(&filename).unwrap();
        store.insert("key", value).unwrap();
    }
    {
        let store = BlobStore::new_from_file(&filename).unwrap();
        assert_eq!(store.get("key").unwrap(), Some(value.to_vec()));
    }
}
