use vstd::prelude::*;
use vstd::string::*;
use crate::storage::hint_view;
use crate::storage::FilesStorage;
use crate::storage::S3Storage;
use crate::storage::DEFAULT_OBJECT_LIMIT;
use crate::text::same_text;

verus! {

/// The directory of the local-disk backend, unless another is set.
pub const DEFAULT_UPLOAD_DIR: &'static str = "./uploads";

/// The bucket of the object store, unless another is set.
pub const DEFAULT_BUCKET: &'static str = "file-storage";

/// The region of the object store, unless another is set.
pub const DEFAULT_REGION: &'static str = "eu-north-1";

/// The setting that selects the local-disk backend.
pub const DISK_BACKEND: &'static str = "disk";

/// The medium that holds the bytes.
#[derive(Clone, Copy, Debug, PartialEq, Eq, Structural)]
pub enum BackendKind {
    Disk,
    ObjectStore,
}

/// Where the files of the service are kept. Made once when the service
/// starts and handed on from there; nothing in this crate looks a setting up
/// by itself.
#[derive(Debug)]
pub struct StorageConfig {
    pub backend: BackendKind,
    pub upload_dir: String,
    pub bucket_name: String,
    pub region: String,
    pub object_limit: usize,
}

/// A setting, or its default where it is not set.
pub open spec fn setting_or(setting: Option<Seq<char>>, default: Seq<char>) -> Seq<char> {
    match setting {
        Some(s) => s,
        None => default,
    }
}

/// The backend that a setting selects: the disk where it says so, and the
/// object store otherwise.
pub open spec fn selected_backend(setting: Option<Seq<char>>) -> BackendKind {
    if setting == Some(DISK_BACKEND@) {
        BackendKind::Disk
    } else {
        BackendKind::ObjectStore
    }
}

fn text_or(setting: Option<&str>, default: &str) -> (text: String)
    ensures
        text@ == setting_or(hint_view(setting), default@),
{
    match setting {
        Some(s) => String::from_str(s),
        None => String::from_str(default),
    }
}

impl StorageConfig {
    /// The configuration for the settings found at start-up, each of which
    /// may be missing.
    pub fn from_settings(
        backend: Option<&str>,
        upload_dir: Option<&str>,
        bucket_name: Option<&str>,
        region: Option<&str>,
    ) -> (config: StorageConfig)
        ensures
            config.backend == selected_backend(hint_view(backend)),
            config.upload_dir@ == setting_or(hint_view(upload_dir), DEFAULT_UPLOAD_DIR@),
            config.bucket_name@ == setting_or(hint_view(bucket_name), DEFAULT_BUCKET@),
            config.region@ == setting_or(hint_view(region), DEFAULT_REGION@),
            config.object_limit == DEFAULT_OBJECT_LIMIT,
    {
        let kind = match backend {
            Some(b) => if same_text(b, DISK_BACKEND) {
                BackendKind::Disk
            } else {
                BackendKind::ObjectStore
            },
            None => BackendKind::ObjectStore,
        };
        StorageConfig {
            backend: kind,
            upload_dir: text_or(upload_dir, DEFAULT_UPLOAD_DIR),
            bucket_name: text_or(bucket_name, DEFAULT_BUCKET),
            region: text_or(region, DEFAULT_REGION),
            object_limit: DEFAULT_OBJECT_LIMIT,
        }
    }

    /// The local-disk driver of this configuration.
    pub fn files_storage(&self) -> (storage: FilesStorage)
        ensures
            storage.directory() == self.upload_dir@,
    {
        FilesStorage::new(self.upload_dir.as_str())
    }

    /// The object-store driver of this configuration.
    pub fn s3_storage(&self) -> (storage: S3Storage)
        ensures
            storage.bucket() == self.bucket_name@,
            storage.object_limit() == self.object_limit,
    {
        S3Storage::with_object_limit(self.bucket_name.as_str(), self.object_limit)
    }
}

} // verus!
