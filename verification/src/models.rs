use vstd::prelude::*;
use crate::record::FileRecord;
use crate::record::FileRecordView;
use crate::record::NewFileRecord;

pub mod files;
pub mod s3_files;
pub mod users;

verus! {

/// A row of the first `files` table, which knows no owner. Times are in
/// microseconds since the Unix epoch.
#[derive(Debug)]
pub struct File {
    pub id: i32,
    pub name: String,
    pub storage_path: String,
    pub size: i64,
    pub mime_type: Option<String>,
    pub created_at: i64,
}

/// What is inserted into the first `files` table.
#[derive(Debug)]
pub struct NewFile {
    pub name: String,
    pub storage_path: String,
    pub size: i64,
    pub mime_type: Option<String>,
}

impl NewFile {
    /// The row to insert for a stored object. The table knows no owner, so
    /// the owner of the file is not kept.
    pub fn from_row(row: NewFileRecord) -> (new: NewFile)
        ensures
            new.name == row.name,
            new.storage_path == row.location,
            new.size == row.size,
            new.mime_type == row.mime_type,
    {
        NewFile {
            name: row.name,
            storage_path: row.location,
            size: row.size,
            mime_type: row.mime_type,
        }
    }
}

impl File {
    /// The row as a catalog record: a file without an owner.
    pub fn into_record(self) -> (record: FileRecord)
        ensures
            record@ == (FileRecordView {
                id: self.id as int,
                name: self.name@,
                location: self.storage_path@,
                size: self.size as int,
                mime_type: self.mime_type.deep_view(),
                owner_id: None,
                created_at: self.created_at as int,
                etag: None,
            }),
    {
        FileRecord {
            id: self.id,
            name: self.name,
            location: self.storage_path,
            size: self.size,
            mime_type: self.mime_type,
            owner_id: None,
            created_at: self.created_at,
            etag: None,
        }
    }
}

} // verus!
