use vstd::prelude::*;
use crate::error::StorageError;
use crate::naming::effective_media_type;
use crate::naming::media_type_or_default;
use crate::record::FileRecord;
use crate::record::FileRecordView;
use crate::record::NewFileRecord;

verus! {

/// What is inserted into the `s3_files` table. Every row has a media type
/// and an owner. Times are in microseconds since the Unix epoch.
#[derive(Debug)]
pub struct NewS3File {
    pub name: String,
    pub mime_type: String,
    pub size: i64,
    pub created_at: i64,
    pub s3_key: String,
    pub etag: Option<String>,
    pub user_id: String,
}

/// A row of the `s3_files` table.
#[derive(Debug)]
pub struct S3File {
    pub name: String,
    pub mime_type: String,
    pub size: i64,
    pub created_at: i64,
    pub file_id: i32,
    pub s3_key: String,
    pub etag: Option<String>,
    pub user_id: String,
}

impl NewS3File {
    /// The row to insert for a stored object. The table demands an owner: a
    /// file without one is refused with `Catalog`. A file without a media
    /// type gets the generic one.
    pub fn from_row(row: NewFileRecord, created_at: i64) -> (result: Result<NewS3File, StorageError>)
        ensures
            match result {
                Ok(new) => {
                    &&& row.owner_id matches Some(owner)
                    &&& new.user_id == owner
                    &&& new.name == row.name
                    &&& new.s3_key == row.location
                    &&& new.size == row.size
                    &&& new.etag == row.etag
                    &&& new.created_at == created_at
                    &&& new.mime_type@ == effective_media_type(row.mime_type.deep_view())
                },
                Err(e) => e == StorageError::Catalog && row.owner_id is None,
            },
    {
        let mime_type = media_type_or_default(&row.mime_type);
        match row.owner_id {
            Some(owner) => Ok(
                NewS3File {
                    name: row.name,
                    mime_type,
                    size: row.size,
                    created_at,
                    s3_key: row.location,
                    etag: row.etag,
                    user_id: owner,
                },
            ),
            None => Err(StorageError::Catalog),
        }
    }
}

impl S3File {
    /// The row as a catalog record.
    pub fn into_record(self) -> (record: FileRecord)
        ensures
            record@ == (FileRecordView {
                id: self.file_id as int,
                name: self.name@,
                location: self.s3_key@,
                size: self.size as int,
                mime_type: Some(self.mime_type@),
                owner_id: Some(self.user_id@),
                created_at: self.created_at as int,
                etag: self.etag.deep_view(),
            }),
            record.location == self.s3_key,
            record.id == self.file_id,
    {
        FileRecord {
            id: self.file_id,
            name: self.name,
            location: self.s3_key,
            size: self.size,
            mime_type: Some(self.mime_type),
            owner_id: Some(self.user_id),
            created_at: self.created_at,
            etag: self.etag,
        }
    }
}

} // verus!
