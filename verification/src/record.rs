use vstd::prelude::*;
use vstd::string::*;
use crate::naming::effective_media_type;
use crate::naming::media_type_or_default;
use crate::timestamp::formatted_time;
use crate::timestamp::render_time;
use crate::timestamp::READABLE_TIME_FORMAT;

verus! {

/// The catalog entry of one stored file.
#[derive(Debug)]
pub struct FileRecord {
    /// Catalog-assigned, unique, never changed.
    pub id: i32,
    /// File name as the uploader gave it; plays no part in addressing.
    pub name: String,
    /// Backend address of the bytes: a path or an object key.
    pub location: String,
    /// Number of bytes durably written.
    pub size: i64,
    pub mime_type: Option<String>,
    /// Identity of the uploader; `None` on rows without an owner.
    pub owner_id: Option<String>,
    /// Microseconds since the Unix epoch, set when the row was inserted.
    pub created_at: i64,
    /// Integrity token supplied by an object store.
    pub etag: Option<String>,
}

/// What a `FileRecord` is, as plain mathematical values.
pub struct FileRecordView {
    pub id: int,
    pub name: Seq<char>,
    pub location: Seq<char>,
    pub size: int,
    pub mime_type: Option<Seq<char>>,
    pub owner_id: Option<Seq<char>>,
    pub created_at: int,
    pub etag: Option<Seq<char>>,
}

impl View for FileRecord {
    type V = FileRecordView;

    open spec fn view(&self) -> FileRecordView {
        FileRecordView {
            id: self.id as int,
            name: self.name@,
            location: self.location@,
            size: self.size as int,
            mime_type: self.mime_type.deep_view(),
            owner_id: self.owner_id.deep_view(),
            created_at: self.created_at as int,
            etag: self.etag.deep_view(),
        }
    }
}

impl DeepView for FileRecord {
    type V = FileRecordView;

    open spec fn deep_view(&self) -> FileRecordView {
        self@
    }
}

/// A file that has been written to a backend and awaits its catalog row.
#[derive(Debug)]
pub struct NewFileRecord {
    pub name: String,
    pub location: String,
    pub size: i64,
    pub mime_type: Option<String>,
    pub owner_id: Option<String>,
    pub etag: Option<String>,
}

/// The row that the catalog makes of `new` under the identifier `id` at the
/// time `created_at`.
pub open spec fn row_of(new: NewFileRecord, id: int, created_at: int) -> FileRecordView {
    FileRecordView {
        id,
        name: new.name@,
        location: new.location@,
        size: new.size as int,
        mime_type: new.mime_type.deep_view(),
        owner_id: new.owner_id.deep_view(),
        created_at,
        etag: new.etag.deep_view(),
    }
}

/// Copies an optional string.
pub fn clone_text(text: &Option<String>) -> (copy: Option<String>)
    ensures
        copy == *text,
{
    match text {
        Some(t) => Some(t.clone()),
        None => None,
    }
}

impl FileRecord {
    /// A copy of the record, field by field.
    pub fn duplicate(&self) -> (copy: FileRecord)
        ensures
            copy == *self,
    {
        FileRecord {
            id: self.id,
            name: self.name.clone(),
            location: self.location.clone(),
            size: self.size,
            mime_type: clone_text(&self.mime_type),
            owner_id: clone_text(&self.owner_id),
            created_at: self.created_at,
            etag: clone_text(&self.etag),
        }
    }
}

impl NewFileRecord {
    /// Turns the pending file into its catalog row.
    pub fn into_record(self, id: i32, created_at: i64) -> (record: FileRecord)
        ensures
            record@ == row_of(self, id as int, created_at as int),
            record.id == id,
            record.created_at == created_at,
            record.name == self.name,
            record.location == self.location,
            record.size == self.size,
            record.mime_type == self.mime_type,
            record.owner_id == self.owner_id,
            record.etag == self.etag,
    {
        FileRecord {
            id,
            name: self.name,
            location: self.location,
            size: self.size,
            mime_type: self.mime_type,
            owner_id: self.owner_id,
            created_at,
            etag: self.etag,
        }
    }
}

/// What the outside may see of a file: everything but where its bytes are.
#[derive(Debug)]
pub struct PublicFile {
    pub id: i32,
    pub name: String,
    pub mime_type: Option<String>,
    pub size: i64,
    pub created_at: i64,
}

/// The answer to a question about a file's metadata.
#[derive(Debug)]
pub struct FileMetadata {
    pub name: String,
    /// The media type to announce: the recorded one, else the generic one.
    pub mime_type: String,
    pub size: i64,
    /// Date and time of the insert as `YYYY-MM-DD hh:mm:ss` in UTC; `None`
    /// for a time beyond what the calendar can hold.
    pub created_at: Option<String>,
}

/// What a caller needs to announce a download.
#[derive(Debug)]
pub struct DownloadHeaders {
    /// The value of the `Content-Disposition` header.
    pub content_disposition: String,
    /// The value of the `Content-Type` header.
    pub content_type: String,
}

/// The `Content-Disposition` value that offers a file under `name`.
pub open spec fn attachment(name: Seq<char>) -> Seq<char> {
    "attachment; filename=\""@ + name + "\""@
}

impl FileRecord {
    /// The record without its backend address.
    pub fn public_view(&self) -> (public: PublicFile)
        ensures
            public.id == self.id,
            public.name == self.name,
            public.mime_type == self.mime_type,
            public.size == self.size,
            public.created_at == self.created_at,
    {
        PublicFile {
            id: self.id,
            name: self.name.clone(),
            mime_type: clone_text(&self.mime_type),
            size: self.size,
            created_at: self.created_at,
        }
    }

    /// Name, media type, size and time of insert, for a reader.
    pub fn metadata(&self) -> (meta: FileMetadata)
        ensures
            meta.name == self.name,
            meta.mime_type@ == effective_media_type(self.mime_type.deep_view()),
            meta.size == self.size,
            meta.created_at.deep_view() == formatted_time(
                self.created_at as int,
                READABLE_TIME_FORMAT@,
            ),
    {
        FileMetadata {
            name: self.name.clone(),
            mime_type: media_type_or_default(&self.mime_type),
            size: self.size,
            created_at: render_time(self.created_at, READABLE_TIME_FORMAT),
        }
    }

    /// The headers that announce a download of the file.
    pub fn download_headers(&self) -> (headers: DownloadHeaders)
        ensures
            headers.content_disposition@ == attachment(self.name@),
            headers.content_type@ == effective_media_type(self.mime_type.deep_view()),
    {
        let mut content_disposition = String::from_str("attachment; filename=\"");
        content_disposition.append(self.name.as_str());
        content_disposition.append("\"");
        DownloadHeaders {
            content_disposition,
            content_type: media_type_or_default(&self.mime_type),
        }
    }
}

} // verus!
