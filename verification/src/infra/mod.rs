//! Where the OTA state lives: the SQLite database that holds the pending
//! record and the directory that holds uploaded images. Only their locations
//! are kept here; reading and writing them is the caller's part.

use vstd::prelude::*;

verus! {

/// The location of the SQLite database that holds the single pending record.
#[derive(Clone, Debug)]
pub struct PendingUpdateRepository {
    database_path: String,
}

impl PendingUpdateRepository {
    /// The path of the database file.
    pub closed spec fn spec_database_path(&self) -> Seq<char> {
        self.database_path@
    }

    /// A repository kept in the database file at `database_path`.
    pub fn new(database_path: String) -> (repository: Self)
        ensures
            repository.spec_database_path() == database_path@,
    {
        PendingUpdateRepository { database_path }
    }

    /// The path of the database file.
    pub fn database_path(&self) -> (path: &String)
        ensures
            path@ == self.spec_database_path(),
    {
        &self.database_path
    }
}

/// The directory in which uploaded OTA images are written.
#[derive(Clone, Debug)]
pub struct UpdateStorage {
    uploads_dir: String,
}

impl UpdateStorage {
    /// The uploads directory.
    pub closed spec fn spec_uploads_dir(&self) -> Seq<char> {
        self.uploads_dir@
    }

    /// A storage that writes images into `uploads_dir`.
    pub fn new(uploads_dir: String) -> (storage: Self)
        ensures
            storage.spec_uploads_dir() == uploads_dir@,
    {
        UpdateStorage { uploads_dir }
    }

    /// The uploads directory.
    pub fn uploads_dir(&self) -> (dir: &String)
        ensures
            dir@ == self.spec_uploads_dir(),
    {
        &self.uploads_dir
    }
}

} // verus!
