//! Storage back-end selection.

use vstd::prelude::*;

verus! {

/// Storage back-end type.
#[derive(Debug, Clone, PartialEq, Eq)]
pub enum StorageBackend {
    /// In-memory store.
    Memory,
    /// SQLite store, by database URL.
    Sqlite(String),
}

} // verus!
