//! A small persistent key-value store kept in one SQLite table.
//!
//! `KVStore` maps string keys to string values and `BlobStore` maps string
//! keys to byte values; both are the generic `Store`. The store's contents
//! are modelled as a finite map from keys to the SQL cells that hold their
//! values (`model`), and every operation states its effect on that map.
//! A database file can be shared by several connections and processes, so
//! the effects are stated for a private store, one whose database no other
//! connection reaches (an in-memory store).

pub mod laws;
pub mod model;
pub mod sqlite;
pub mod statements;
pub mod store;
pub mod value;

pub use store::{BlobStore, KVStore, Store, StoreError};
pub use value::StoreValue;
