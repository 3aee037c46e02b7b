//! The `photos` table: its schema, the statements run against it, and how
//! the store fails.

use vstd::prelude::*;

verus! {

/// Creates the table and its index on `upload_time` when they do not exist yet;
/// safe to run at every start.
pub const CREATE_TABLE: &'static str = "CREATE TABLE IF NOT EXISTS photos (id INT AUTO_INCREMENT PRIMARY KEY, filename VARCHAR(255) NOT NULL, title VARCHAR(255) NOT NULL, description TEXT, upload_time TIMESTAMP DEFAULT CURRENT_TIMESTAMP, INDEX idx_upload_time (upload_time)) ENGINE=InnoDB DEFAULT CHARSET=utf8mb4 COLLATE=utf8mb4_unicode_ci";

/// Every photo, newest first.
pub const SELECT_ALL: &'static str = "SELECT * FROM photos ORDER BY upload_time DESC";

/// Adds a row from a filename, a title and an optional description.
pub const INSERT: &'static str = "INSERT INTO photos (filename, title, description) VALUES (?, ?, ?)";

/// Reads back the most recent row stored under a filename.
pub const SELECT_BY_FILENAME: &'static str = "SELECT * FROM photos WHERE filename = ? ORDER BY id DESC LIMIT 1";

/// Looks a row up by id.
pub const SELECT_BY_ID: &'static str = "SELECT * FROM photos WHERE id = ?";

/// Removes a row by id.
pub const DELETE_BY_ID: &'static str = "DELETE FROM photos WHERE id = ?";

/// The most connections the pool opens at once.
pub const MAX_CONNECTIONS: u32 = 5;

/// A failed storage operation, with the store's own account of it.
#[derive(Clone, Debug)]
pub enum StoreError {
    /// No row matched.
    NotFound(String),
    /// The connection or the statement failed.
    Failed(String),
}

impl StoreError {
    /// The store's account of the failure.
    pub open spec fn text(&self) -> Seq<char> {
        match self {
            StoreError::NotFound(m) => m@,
            StoreError::Failed(m) => m@,
        }
    }

    /// The store's account of the failure.
    pub fn message(&self) -> (r: String)
        ensures
            r@ == self.text(),
    {
        match self {
            StoreError::NotFound(m) => m.clone(),
            StoreError::Failed(m) => m.clone(),
        }
    }
}

} // verus!
