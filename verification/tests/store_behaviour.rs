use cute_sqlite_kv::statements::{
    clear_sql, count_sql, create_table_sql, exists_sql, is_empty_sql, replace_sql, select_sql,
    take_sql,
};
use cute_sqlite_kv::store::{after_busy_timeout, flag_from_answer, len_from_count, lift_error};
use cute_sqlite_kv::{BlobStore, KVStore, StoreError};

use tempfile::tempdir;

#[test]
fn statements_have_the_expected_text() {
    assert_eq!(
        create_table_sql(),
        "CREATE TABLE IF NOT EXISTS KVStore_table (KVStore_key varchar PRIMARY KEY UNIQUE NOT NULL, KVStore_val)"
    );
    assert_eq!(
        replace_sql(),
        "REPLACE INTO KVStore_table (KVStore_key, KVStore_val) VALUES (?, ?)"
    );
    assert_eq!(
        exists_sql(),
        "SELECT EXISTS(SELECT 1 FROM KVStore_table WHERE KVStore_key = ?)"
    );
    assert_eq!(
        select_sql(),
        "SELECT KVStore_val FROM KVStore_table WHERE KVStore_key = ?"
    );
    assert_eq!(
        take_sql(),
        "DELETE FROM KVStore_table WHERE KVStore_key = ? RETURNING KVStore_val"
    );
    assert_eq!(clear_sql(), "DELETE FROM KVStore_table");
    assert_eq!(is_empty_sql(), "SELECT NOT EXISTS(SELECT 1 FROM KVStore_table)");
    assert_eq!(count_sql(), "SELECT COUNT(*) FROM KVStore_table");
}

#[test]
fn answers_are_read_as_flags_and_lengths() {
    assert!(matches!(flag_from_answer(Ok(0)), Ok(false)));
    assert!(matches!(flag_from_answer(Ok(1)), Ok(true)));
    assert!(matches!(flag_from_answer(Ok(-3)), Ok(true)));
    assert!(matches!(
        flag_from_answer(Err(rusqlite::Error::QueryReturnedNoRows)),
        Err(StoreError::Sqlite(rusqlite::Error::QueryReturnedNoRows))
    ));
    assert!(matches!(len_from_count(Ok(0)), Ok(0)));
    assert!(matches!(len_from_count(Ok(42)), Ok(42)));
    assert!(matches!(
        len_from_count(Err(rusqlite::Error::InvalidQuery)),
        Err(StoreError::Sqlite(rusqlite::Error::InvalidQuery))
    ));
    assert!(matches!(lift_error::<u8>(Ok(7)), Ok(7)));
    assert!(matches!(
        lift_error::<u8>(Err(rusqlite::Error::InvalidQuery)),
        Err(StoreError::Sqlite(rusqlite::Error::InvalidQuery))
    ));
}

#[test]
fn new_store_is_empty() {
    let kvstore = KVStore::new_in_memory().unwrap();
    assert!(kvstore.is_empty().unwrap());
    assert_eq!(kvstore.len().unwrap(), 0);
    assert!(!kvstore.contains_key("key").unwrap());
}

#[test]
fn contains_key_follows_insert_and_remove() {
    let mut kvstore = KVStore::new_in_memory().unwrap();
    kvstore.insert("key", "value").unwrap();
    assert!(kvstore.contains_key("key").unwrap());
    assert!(!kvstore.contains_key("nonexistent_key").unwrap());
    kvstore.remove("key").unwrap();
    assert!(!kvstore.contains_key("key").unwrap());
}

#[test]
fn len_and_is_empty_count_pairs() {
    let mut kvstore = KVStore::new_in_memory().unwrap();
    kvstore.insert("key1", "value1").unwrap();
    assert!(!kvstore.is_empty().unwrap());
    kvstore.insert("key2", "value2").unwrap();
    assert_eq!(kvstore.len().unwrap(), 2);
    // Overwriting a key adds no pair.
    kvstore.insert("key2", "other").unwrap();
    assert_eq!(kvstore.len().unwrap(), 2);
    // Removing an absent key removes nothing.
    assert_eq!(kvstore.remove("absent").unwrap(), None);
    assert_eq!(kvstore.len().unwrap(), 2);
    assert_eq!(kvstore.remove("key1").unwrap(), Some("value1".to_string()));
    assert_eq!(kvstore.len().unwrap(), 1);
}

#[test]
fn clear_removes_every_pair() {
    let mut kvstore = KVStore::new_in_memory().unwrap();
    kvstore.insert("key1", "value1").unwrap();
    kvstore.insert("key2", "value2").unwrap();
    kvstore.clear().unwrap();
    assert_eq!(kvstore.get("key1").unwrap(), None);
    assert_eq!(kvstore.get("key2").unwrap(), None);
    assert!(kvstore.is_empty().unwrap());
    assert_eq!(kvstore.len().unwrap(), 0);
    // Clearing an empty store is fine.
    kvstore.clear().unwrap();
    assert!(kvstore.is_empty().unwrap());
}

#[test]
fn insert_leaves_other_keys_alone() {
    let mut kvstore = KVStore::new_in_memory().unwrap();
    kvstore.insert("a", "1").unwrap();
    kvstore.insert("b", "2").unwrap();
    kvstore.insert("a", "3").unwrap();
    assert_eq!(kvstore.get("a").unwrap(), Some("3".to_string()));
    assert_eq!(kvstore.get("b").unwrap(), Some("2".to_string()));
    kvstore.remove("a").unwrap();
    assert_eq!(kvstore.get("b").unwrap(), Some("2".to_string()));
}

#[test]
fn keys_and_values_are_taken_literally() {
    let mut kvstore = KVStore::new_in_memory().unwrap();
    let odd_key = "x'); DROP TABLE KVStore_table; --";
    kvstore.insert(odd_key, "v").unwrap();
    kvstore.insert("", "").unwrap();
    kvstore.insert("ключ ✓", "значение 🦀").unwrap();
    assert_eq!(kvstore.get(odd_key).unwrap(), Some("v".to_string()));
    assert_eq!(kvstore.get("").unwrap(), Some(String::new()));
    assert_eq!(kvstore.get("ключ ✓").unwrap(), Some("значение 🦀".to_string()));
    // Keys are compared exactly.
    assert_eq!(kvstore.get("Ключ ✓").unwrap(), None);
    assert_eq!(kvstore.len().unwrap(), 3);
}

#[test]
fn empty_blob_round_trips() {
    let mut store = BlobStore::new_in_memory().unwrap();
    let value: &[u8] = &[];
    store.insert("key", value).unwrap();
    assert_eq!(store.get("key").unwrap(), Some(Vec::new()));
    assert!(store.contains_key("key").unwrap());
}

#[test]
fn remove_after_insert_restores_the_store() {
    let mut kvstore = KVStore::new_in_memory().unwrap();
    kvstore.insert("kept", "1").unwrap();
    kvstore.insert("fresh", "2").unwrap();
    assert_eq!(kvstore.remove("fresh").unwrap(), Some("2".to_string()));
    assert_eq!(kvstore.len().unwrap(), 1);
    assert_eq!(kvstore.get("kept").unwrap(), Some("1".to_string()));
    assert_eq!(kvstore.get("fresh").unwrap(), None);
}

#[test]
fn reading_a_blob_as_text_is_an_error() {
    let temp_dir = tempdir().expect("Failed to create temp directory");
    let filename = temp_dir.path().join("mixed.db");
    {
        let mut store = BlobStore::new_from_file(&filename).unwrap();
        store.insert("key", &[1u8, 2, 3][..]).unwrap();
    }
    let mut kvstore = KVStore::new_from_file(&filename).unwrap();
    assert!(matches!(kvstore.get("key"), Err(StoreError::Sqlite(_))));
    assert!(kvstore.contains_key("key").unwrap());
    // Removing still deletes the row, though its value cannot be read as text.
    assert!(matches!(kvstore.remove("key"), Err(StoreError::Sqlite(_))));
}

#[test]
fn opening_a_file_in_a_missing_directory_fails() {
    let temp_dir = tempdir().expect("Failed to create temp directory");
    let filename = temp_dir.path().join("no_such_dir").join("kvstore.db");
    assert!(matches!(KVStore::new_from_file(&filename), Err(StoreError::Sqlite(_))));
}

#[test]
fn busy_timeout_step_passes_the_connection_or_the_error() {
    let conn = rusqlite::Connection::open_in_memory().unwrap();
    assert!(after_busy_timeout(conn, Ok(())).is_ok());
    let conn = rusqlite::Connection::open_in_memory().unwrap();
    assert!(matches!(
        after_busy_timeout(conn, Err(rusqlite::Error::InvalidQuery)),
        Err(StoreError::Sqlite(rusqlite::Error::InvalidQuery))
    ));
}
