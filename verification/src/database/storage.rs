use vstd::prelude::*;
use vstd::string::*;

use crate::database::types::{ClassDatabase, ClassIndex, Timestamp, SCHEMA_VERSION};

verus! {

/// Why a database could not be loaded.
#[derive(Debug)]
pub enum StorageError {
    /// The stored content could not be read or is not a database; the text says why
    Malformed(String),
}

/// What was found where the database is kept.
#[derive(Debug)]
pub enum Stored {
    /// No file is there
    Missing,
    /// A file is there and holds this database
    Database(ClassDatabase),
    /// A file is there and its content is not a database; the text says why
    Unusable(String),
}

/// Database storage operations
#[derive(Debug)]
pub struct DatabaseStorage {
    /// Path to the database file
    db_path: String,
}

impl DatabaseStorage {
    /// The path to the database file
    pub closed spec fn spec_path(&self) -> Seq<char> {
        self.db_path@
    }

    /// Create a new database storage with the given path
    pub fn new(db_path: &str) -> (storage: Self)
        ensures
            storage.spec_path() == db_path@,
    {
        DatabaseStorage { db_path: db_path.to_owned() }
    }

    /// Load the database from what was found on disk: a missing file gives an empty database
    /// with fresh times, a stored database is taken as it is, and unusable content is an
    /// error
    pub fn load(&self, stored: Stored, now: Timestamp) -> (result: Result<
        ClassDatabase,
        StorageError,
    >)
        requires
            stored matches Stored::Database(db) ==> db.wf(),
        ensures
            match stored {
                Stored::Missing => result matches Ok(db) && db.wf() && db@ == (ClassIndex {
                    entries: Seq::empty(),
                    file_index: Seq::empty(),
                    created_at: now,
                    updated_at: now,
                    version: SCHEMA_VERSION@,
                }),
                Stored::Database(found) => result matches Ok(db) && db.wf() && db@ == found@,
                Stored::Unusable(reason) => result matches Err(StorageError::Malformed(text))
                    && text@ == reason@,
            },
    {
        match stored {
            Stored::Missing => Ok(ClassDatabase::new(now)),
            Stored::Database(found) => Ok(found),
            Stored::Unusable(reason) => Err(StorageError::Malformed(reason)),
        }
    }

    /// Get the path to the database file
    pub fn path(&self) -> (path: &String)
        ensures
            path@ == self.spec_path(),
    {
        &self.db_path
    }
}

} // verus!
