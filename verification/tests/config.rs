use file_storage::config::BackendKind;
use file_storage::config::StorageConfig;
use file_storage::config::DEFAULT_BUCKET;
use file_storage::config::DEFAULT_REGION;
use file_storage::config::DEFAULT_UPLOAD_DIR;

#[test]
fn defaults_apply_where_nothing_is_set() {
    let config = StorageConfig::from_settings(None, None, None, None);
    assert_eq!(config.backend, BackendKind::ObjectStore);
    assert_eq!(config.upload_dir, "./uploads");
    assert_eq!(config.bucket_name, "file-storage");
    assert_eq!(config.region, "eu-north-1");
    assert_eq!(config.object_limit, 256 * 1024 * 1024);
    assert_eq!(DEFAULT_UPLOAD_DIR, "./uploads");
    assert_eq!(DEFAULT_BUCKET, "file-storage");
    assert_eq!(DEFAULT_REGION, "eu-north-1");
}

#[test]
fn settings_win_over_defaults() {
    let config =
        StorageConfig::from_settings(Some("disk"), Some("/srv/files"), Some("archive"), Some("eu-west-1"));
    assert_eq!(config.backend, BackendKind::Disk);
    assert_eq!(config.upload_dir, "/srv/files");
    assert_eq!(config.bucket_name, "archive");
    assert_eq!(config.region, "eu-west-1");
}

#[test]
fn only_the_word_disk_selects_the_disk() {
    assert_eq!(StorageConfig::from_settings(Some("s3"), None, None, None).backend, BackendKind::ObjectStore);
    assert_eq!(StorageConfig::from_settings(Some("Disk"), None, None, None).backend, BackendKind::ObjectStore);
    assert_eq!(StorageConfig::from_settings(Some(""), None, None, None).backend, BackendKind::ObjectStore);
}

#[test]
fn drivers_come_from_the_configuration() {
    let config = StorageConfig::from_settings(Some("disk"), Some("/srv/files"), Some("archive"), None);
    assert_eq!(config.files_storage().upload_dir(), "/srv/files");
    assert_eq!(config.s3_storage().bucket_name(), "archive");
}
