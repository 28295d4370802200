use vstd::prelude::*;
use crate::record::FileRecord;
use crate::record::FileRecordView;
use crate::record::NewFileRecord;
use crate::text::decimal;
use crate::text::decimal_text;

verus! {

/// A row of the `files` table. The owner is the number of a user. Times are
/// in microseconds since the Unix epoch.
#[derive(Debug)]
pub struct File {
    pub id: i32,
    pub name: String,
    pub storage_path: String,
    pub size: i64,
    pub mime_type: Option<String>,
    pub created_at: i64,
    pub user_id: Option<i32>,
}

/// What is inserted into the `files` table.
#[derive(Debug)]
pub struct NewFile {
    pub name: String,
    pub storage_path: String,
    pub size: i64,
    pub mime_type: Option<String>,
    pub user_id: Option<i32>,
}

/// The identity of a user by number: the number in decimal notation.
pub open spec fn owner_of(user_id: Option<i32>) -> Option<Seq<char>> {
    match user_id {
        Some(n) => Some(decimal(n as int)),
        None => None,
    }
}

impl NewFile {
    /// The row to insert for a stored object that belongs to the user with
    /// the number `user_id`. The table names its owners by number, so the
    /// owner is taken from `user_id` and not from the text in `row`.
    pub fn from_row(row: NewFileRecord, user_id: Option<i32>) -> (new: NewFile)
        ensures
            new.name == row.name,
            new.storage_path == row.location,
            new.size == row.size,
            new.mime_type == row.mime_type,
            new.user_id == user_id,
    {
        NewFile {
            name: row.name,
            storage_path: row.location,
            size: row.size,
            mime_type: row.mime_type,
            user_id,
        }
    }
}

impl File {
    /// The row as a catalog record. The owner becomes the decimal notation
    /// of the user's number.
    pub fn into_record(self) -> (record: FileRecord)
        ensures
            record@ == (FileRecordView {
                id: self.id as int,
                name: self.name@,
                location: self.storage_path@,
                size: self.size as int,
                mime_type: self.mime_type.deep_view(),
                owner_id: owner_of(self.user_id),
                created_at: self.created_at as int,
                etag: None,
            }),
    {
        let owner_id = match self.user_id {
            Some(n) => Some(decimal_text(n)),
            None => None,
        };
        FileRecord {
            id: self.id,
            name: self.name,
            location: self.storage_path,
            size: self.size,
            mime_type: self.mime_type,
            owner_id,
            created_at: self.created_at,
            etag: None,
        }
    }
}

} // verus!
