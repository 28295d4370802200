use vstd::prelude::*;
use vstd::string::*;
use crate::error::StorageError;
use crate::naming::address;
use crate::naming::build_address;
use crate::naming::choose_media_type;
use crate::naming::chosen_media_type;
use crate::naming::guessed_media_type;
use crate::naming::has_dot;
use crate::naming::is_extension;
use crate::naming::is_object_id;
use crate::naming::is_plain_name;
use crate::naming::plain_extension;
use crate::naming::media_type_for_extension;
use crate::naming::path_extension;
use crate::naming::random_object_id;
use crate::naming::DEFAULT_FILE_NAME;
use crate::transfer::BufferedUpload;
use crate::transfer::TransferProgress;

verus! {

/// The key prefix under which the object store keeps uploads.
pub const UPLOAD_PREFIX: &'static str = "uploads";

/// The largest object that is gathered in memory for the object store,
/// unless the storage was made with another limit.
pub const DEFAULT_OBJECT_LIMIT: usize = 0x1000_0000;

/// What a backend reported of one operation on one address.
#[derive(Clone, Copy, Debug, PartialEq, Eq, Structural)]
pub enum BackendOutcome {
    /// The operation was carried out.
    Done,
    /// There is no object at the address.
    Missing,
    /// The backend failed.
    Failed,
}

/// What is settled of an upload before its first byte is written.
#[derive(Debug)]
pub struct UploadPlan {
    /// The name to record: the uploader's, else the default.
    pub file_name: String,
    /// The random identifier the address is built from.
    pub object_id: String,
    /// The extension of the name, kept in the address.
    pub extension: Option<String>,
    /// The address to write the bytes to.
    pub location: String,
    /// The media type to record, where one is known.
    pub mime_type: Option<String>,
}

/// What a backend driver hands back of a finished upload.
#[derive(Debug)]
pub struct StoredObject {
    pub file_name: String,
    pub location: String,
    pub size: i64,
    pub mime_type: Option<String>,
}

/// The view of an optional string slice.
pub open spec fn hint_view(hint: Option<&str>) -> Option<Seq<char>> {
    match hint {
        Some(t) => Some(t@),
        None => None,
    }
}

/// The name to record for an upload.
pub open spec fn recorded_name(name_hint: Option<Seq<char>>) -> Seq<char> {
    match name_hint {
        Some(n) => n,
        None => DEFAULT_FILE_NAME@,
    }
}

/// The media type that an extension suggests.
pub open spec fn suggested_media_type(extension: Option<Seq<char>>) -> Option<Seq<char>> {
    match extension {
        Some(e) => guessed_media_type(e),
        None => None,
    }
}

/// Whether `plan` is the plan of an upload into `namespace` with the given
/// hints, identifier and extension.
pub open spec fn is_plan_for(
    plan: UploadPlan,
    namespace: Seq<char>,
    name_hint: Option<Seq<char>>,
    content_type: Option<Seq<char>>,
    object_id: Seq<char>,
    extension: Option<Seq<char>>,
) -> bool {
    &&& plan.file_name@ == recorded_name(name_hint)
    &&& plan.object_id@ == object_id
    &&& plan.extension.deep_view() == extension
    &&& plan.location@ == address(namespace, object_id, extension)
    &&& plan.mime_type.deep_view() == chosen_media_type(
        content_type,
        suggested_media_type(extension),
    )
}

/// Plans an upload for a given identifier and extension: the address comes
/// from the identifier and the extension alone, the name and the media type
/// from the hints.
pub fn plan_upload(
    namespace: &str,
    name_hint: Option<&str>,
    content_type: Option<&str>,
    object_id: String,
    extension: Option<String>,
) -> (plan: UploadPlan)
    ensures
        is_plan_for(
            plan,
            namespace@,
            hint_view(name_hint),
            hint_view(content_type),
            object_id@,
            extension.deep_view(),
        ),
{
    let file_name = match name_hint {
        Some(n) => String::from_str(n),
        None => String::from_str(DEFAULT_FILE_NAME),
    };
    let location = build_address(namespace, object_id.as_str(), &extension);
    let guessed = media_type_for_extension(&extension);
    let mime_type = choose_media_type(content_type, guessed);
    UploadPlan { file_name, object_id, extension, location, mime_type }
}

/// Plans an upload under a fresh random identifier, with the extension of the
/// name to record. For a plain name the extension is what stands behind its
/// last dot.
pub fn begin_upload(namespace: &str, name_hint: Option<&str>, content_type: Option<&str>) -> (plan:
    UploadPlan)
    ensures
        is_object_id(plan.object_id@),
        plan.extension matches Some(e) ==> is_extension(e@),
        plan.extension is Some ==> has_dot(recorded_name(hint_view(name_hint))),
        is_plain_name(recorded_name(hint_view(name_hint))) ==> plan.extension.deep_view()
            == plain_extension(recorded_name(hint_view(name_hint))),
        is_plan_for(
            plan,
            namespace@,
            hint_view(name_hint),
            hint_view(content_type),
            plan.object_id@,
            plan.extension.deep_view(),
        ),
{
    let object_id = random_object_id();
    let extension = match name_hint {
        Some(n) => path_extension(n),
        None => path_extension(DEFAULT_FILE_NAME),
    };
    plan_upload(namespace, name_hint, content_type, object_id, extension)
}

impl UploadPlan {
    /// Closes the plan with the number of bytes that were written.
    pub fn finish(self, size: i64) -> (stored: StoredObject)
        ensures
            stored.file_name == self.file_name,
            stored.location == self.location,
            stored.size == size,
            stored.mime_type == self.mime_type,
    {
        StoredObject {
            file_name: self.file_name,
            location: self.location,
            size,
            mime_type: self.mime_type,
        }
    }
}

/// The answer of `Delete`: an object that is already gone counts as deleted.
pub fn delete_result(outcome: BackendOutcome) -> (result: Result<(), StorageError>)
    ensures
        outcome != BackendOutcome::Failed ==> result is Ok,
        outcome == BackendOutcome::Failed ==> result == Err::<(), StorageError>(
            StorageError::Backend,
        ),
{
    match outcome {
        BackendOutcome::Done => Ok(()),
        BackendOutcome::Missing => Ok(()),
        BackendOutcome::Failed => Err(StorageError::Backend),
    }
}

/// The answer of `Open`: a missing object is `NotFound`, a failing backend a
/// `Transfer` error.
pub fn open_result(outcome: BackendOutcome) -> (result: Result<(), StorageError>)
    ensures
        result == match outcome {
            BackendOutcome::Done => Ok::<(), StorageError>(()),
            BackendOutcome::Missing => Err::<(), StorageError>(StorageError::NotFound),
            BackendOutcome::Failed => Err::<(), StorageError>(StorageError::Transfer),
        },
{
    match outcome {
        BackendOutcome::Done => Ok(()),
        BackendOutcome::Missing => Err(StorageError::NotFound),
        BackendOutcome::Failed => Err(StorageError::Transfer),
    }
}

/// The answer of `Describe`: whether an object stands at the address.
pub fn describe_result(outcome: BackendOutcome) -> (result: Result<bool, StorageError>)
    ensures
        result == match outcome {
            BackendOutcome::Done => Ok::<bool, StorageError>(true),
            BackendOutcome::Missing => Ok::<bool, StorageError>(false),
            BackendOutcome::Failed => Err::<bool, StorageError>(StorageError::Backend),
        },
{
    match outcome {
        BackendOutcome::Done => Ok(true),
        BackendOutcome::Missing => Ok(false),
        BackendOutcome::Failed => Err(StorageError::Backend),
    }
}

/// The driver for files on local disk: every upload is a file of its own in
/// one directory.
#[derive(Clone, Debug)]
pub struct FilesStorage {
    upload_dir: String,
}

impl FilesStorage {
    /// The directory that holds the uploads.
    pub closed spec fn directory(&self) -> Seq<char> {
        self.upload_dir@
    }

    /// A driver that keeps its files in `upload_dir`.
    pub fn new(upload_dir: &str) -> (storage: FilesStorage)
        ensures
            storage.directory() == upload_dir@,
    {
        FilesStorage { upload_dir: String::from_str(upload_dir) }
    }

    /// The directory that holds the uploads.
    pub fn upload_dir(&self) -> (dir: &str)
        ensures
            dir@ == self.directory(),
    {
        self.upload_dir.as_str()
    }

    /// Plans an upload: a fresh path inside the upload directory.
    pub fn begin_upload(&self, name_hint: Option<&str>, content_type: Option<&str>) -> (plan:
        UploadPlan)
        ensures
            is_object_id(plan.object_id@),
            plan.extension matches Some(e) ==> is_extension(e@),
            plan.extension is Some ==> has_dot(recorded_name(hint_view(name_hint))),
            is_plain_name(recorded_name(hint_view(name_hint))) ==> plan.extension.deep_view()
                == plain_extension(recorded_name(hint_view(name_hint))),
            is_plan_for(
                plan,
                self.directory(),
                hint_view(name_hint),
                hint_view(content_type),
                plan.object_id@,
                plan.extension.deep_view(),
            ),
    {
        begin_upload(self.upload_dir.as_str(), name_hint, content_type)
    }

    /// Closes an upload whose chunks were written to the file one by one and
    /// counted in `progress`.
    pub fn finish_upload(&self, plan: UploadPlan, progress: &TransferProgress) -> (stored:
        StoredObject)
        ensures
            stored.file_name == plan.file_name,
            stored.location == plan.location,
            stored.size == progress.written(),
            stored.mime_type == plan.mime_type,
    {
        plan.finish(progress.total())
    }
}

/// The driver for an object store: every upload is one object in one bucket,
/// gathered in memory and put in one piece.
#[derive(Clone, Debug)]
pub struct S3Storage {
    bucket_name: String,
    object_limit: usize,
}

impl S3Storage {
    /// The bucket that holds the uploads.
    pub closed spec fn bucket(&self) -> Seq<char> {
        self.bucket_name@
    }

    /// The largest object the driver gathers in memory.
    pub closed spec fn object_limit(&self) -> nat {
        self.object_limit as nat
    }

    /// A driver for the bucket `bucket_name`, with the default size limit.
    pub fn new(bucket_name: &str) -> (storage: S3Storage)
        ensures
            storage.bucket() == bucket_name@,
            storage.object_limit() == DEFAULT_OBJECT_LIMIT,
    {
        S3Storage { bucket_name: String::from_str(bucket_name), object_limit: DEFAULT_OBJECT_LIMIT }
    }

    /// A driver for the bucket `bucket_name` that gathers at most
    /// `object_limit` bytes for one object.
    pub fn with_object_limit(bucket_name: &str, object_limit: usize) -> (storage: S3Storage)
        ensures
            storage.bucket() == bucket_name@,
            storage.object_limit() == object_limit,
    {
        S3Storage { bucket_name: String::from_str(bucket_name), object_limit }
    }

    /// The bucket that holds the uploads.
    pub fn bucket_name(&self) -> (name: &str)
        ensures
            name@ == self.bucket(),
    {
        self.bucket_name.as_str()
    }

    /// Plans an upload: a fresh key under the upload prefix.
    pub fn begin_upload(&self, name_hint: Option<&str>, content_type: Option<&str>) -> (plan:
        UploadPlan)
        ensures
            is_object_id(plan.object_id@),
            plan.extension matches Some(e) ==> is_extension(e@),
            plan.extension is Some ==> has_dot(recorded_name(hint_view(name_hint))),
            is_plain_name(recorded_name(hint_view(name_hint))) ==> plan.extension.deep_view()
                == plain_extension(recorded_name(hint_view(name_hint))),
            is_plan_for(
                plan,
                UPLOAD_PREFIX@,
                hint_view(name_hint),
                hint_view(content_type),
                plan.object_id@,
                plan.extension.deep_view(),
            ),
    {
        begin_upload(UPLOAD_PREFIX, name_hint, content_type)
    }

    /// An empty buffer for one upload, held to the driver's size limit.
    pub fn new_buffer(&self) -> (buffer: BufferedUpload)
        ensures
            buffer.bytes() == Seq::<u8>::empty(),
            buffer.limit() == crate::transfer::effective_limit(self.object_limit()),
    {
        BufferedUpload::new(self.object_limit)
    }

    /// Closes an upload that was gathered in `buffer`: the body to put, and
    /// what to record of it.
    pub fn finish_upload(&self, plan: UploadPlan, buffer: BufferedUpload) -> (done: (
        StoredObject,
        Vec<u8>,
    ))
        ensures
            done.0.file_name == plan.file_name,
            done.0.location == plan.location,
            done.0.size == buffer.bytes().len(),
            done.0.mime_type == plan.mime_type,
            done.1@ == buffer.bytes(),
    {
        let size = buffer.size();
        let body = buffer.into_bytes();
        (plan.finish(size), body)
    }
}

} // verus!
